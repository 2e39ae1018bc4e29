//! A model of the chat platform as the bot observes it: the messages
//! visible in each user's chat, an identifier counter for new messages,
//! and the side channel that media uploads go through. The dialogue logic
//! is verified against this model; a transport adapter performs the same
//! operations against the real platform.

use vstd::prelude::*;
use vstd::slice::slice_to_vec;

use crate::i18n::KeyboardKind;

verus! {

/// An opaque reference to uploaded media: reusable without re-uploading.
#[derive(Clone, Debug, PartialEq, Eq)]
pub struct ImageHandle {
    /// Platform-assigned media identifier.
    pub file_id: i64,
    /// Access credential bound to the media.
    pub access_hash: i64,
    /// Binary reference blob the platform hands back.
    pub file_reference: Vec<u8>,
}

/// The mathematical value of an [`ImageHandle`].
pub struct HandleModel {
    pub file_id: i64,
    pub access_hash: i64,
    pub file_reference: Seq<u8>,
}

impl View for ImageHandle {
    type V = HandleModel;

    open spec fn view(&self) -> HandleModel {
        HandleModel {
            file_id: self.file_id,
            access_hash: self.access_hash,
            file_reference: self.file_reference@,
        }
    }
}

impl ImageHandle {
    /// Copies the handle.
    pub fn duplicate(&self) -> (h: ImageHandle)
        ensures
            h@ == self@,
    {
        ImageHandle {
            file_id: self.file_id,
            access_hash: self.access_hash,
            file_reference: slice_to_vec(self.file_reference.as_slice()),
        }
    }
}

/// One message visible on the chat surface.
pub struct ChatMessage {
    /// Platform-assigned message identifier.
    pub id: i64,
    /// The chat (user) the message is visible in.
    pub user: i64,
    /// Whether the bot authored it.
    pub from_bot: bool,
    /// The visible text, or the caption when media is attached.
    pub text: String,
    /// The attached media, if any.
    pub image: Option<ImageHandle>,
    /// The inline keyboard attached to the message.
    pub keyboard: KeyboardKind,
}

/// The mathematical value of a [`ChatMessage`].
pub struct MessageModel {
    pub id: i64,
    pub user: i64,
    pub from_bot: bool,
    pub text: Seq<char>,
    pub image: Option<HandleModel>,
    pub keyboard: KeyboardKind,
}

impl View for ChatMessage {
    type V = MessageModel;

    open spec fn view(&self) -> MessageModel {
        MessageModel {
            id: self.id,
            user: self.user,
            from_bot: self.from_bot,
            text: self.text@,
            image: match self.image {
                Some(h) => Some(h@),
                None => None,
            },
            keyboard: self.keyboard,
        }
    }
}

impl ChatMessage {
    /// Copies the message.
    pub fn duplicate(&self) -> (m: ChatMessage)
        ensures
            m@ == self@,
    {
        ChatMessage {
            id: self.id,
            user: self.user,
            from_bot: self.from_bot,
            text: self.text.clone(),
            image: match &self.image {
                Some(h) => Some(h.duplicate()),
                None => None,
            },
            keyboard: self.keyboard,
        }
    }
}

/// The mathematical value of a [`ChatPlatform`].
pub struct PlatformModel {
    /// Every message currently visible, across all chats.
    pub messages: Seq<MessageModel>,
    /// The identifier the next sent message receives.
    pub next_message_id: i64,
    /// How many media uploads the platform has received.
    pub uploads: u64,
    /// The media identifier the next upload receives.
    pub next_file_id: i64,
}

/// The bot-authored messages visible in one user's chat.
pub open spec fn spec_bot_messages(msgs: Seq<MessageModel>, user: i64) -> Seq<MessageModel> {
    msgs.filter(|m: MessageModel| m.user == user && m.from_bot)
}

/// The simulated chat platform.
pub struct ChatPlatform {
    messages: Vec<ChatMessage>,
    next_message_id: i64,
    uploads: u64,
    next_file_id: i64,
}

impl View for ChatPlatform {
    type V = PlatformModel;

    closed spec fn view(&self) -> PlatformModel {
        PlatformModel {
            messages: self.messages@.map_values(|m: ChatMessage| m@),
            next_message_id: self.next_message_id,
            uploads: self.uploads,
            next_file_id: self.next_file_id,
        }
    }
}

impl ChatPlatform {
    /// A platform with no messages and no uploads.
    pub fn new() -> (p: ChatPlatform)
        ensures
            p@.messages == Seq::<MessageModel>::empty(),
            p@.next_message_id == 1,
            p@.uploads == 0,
            p@.next_file_id == 1,
    {
        let p = ChatPlatform { messages: Vec::new(), next_message_id: 1, uploads: 1, next_file_id: 1 };
        let p = ChatPlatform { uploads: 0, ..p };
        proof {
            assert(p@.messages =~= Seq::<MessageModel>::empty());
        }
        p
    }

    /// Sends a bot-authored message into a user's chat and returns its
    /// fresh identifier.
    pub fn send_bot_message(
        &mut self,
        user: i64,
        text: &str,
        image: Option<ImageHandle>,
        keyboard: KeyboardKind,
    ) -> (id: i64)
        requires
            old(self)@.next_message_id < 0x7fff_ffff_ffff_ffff,
        ensures
            id == old(self)@.next_message_id,
            final(self)@.messages == old(self)@.messages.push(
                MessageModel {
                    id: id,
                    user: user,
                    from_bot: true,
                    text: text@,
                    image: match image {
                        Some(h) => Some(h@),
                        None => None,
                    },
                    keyboard: keyboard,
                },
            ),
            final(self)@.next_message_id == old(self)@.next_message_id + 1,
            final(self)@.uploads == old(self)@.uploads,
            final(self)@.next_file_id == old(self)@.next_file_id,
    {
        let id = self.next_message_id;
        let msg = ChatMessage {
            id: id,
            user: user,
            from_bot: true,
            text: text.to_owned(),
            image: image,
            keyboard: keyboard,
        };
        self.messages.push(msg);
        self.next_message_id = self.next_message_id + 1;
        proof {
            assert(self@.messages =~= old(self)@.messages.push(
                MessageModel {
                    id: id,
                    user: user,
                    from_bot: true,
                    text: text@,
                    image: match image {
                        Some(h) => Some(h@),
                        None => None,
                    },
                    keyboard: keyboard,
                },
            ));
        }
        id
    }

    /// Places a user-authored message on the surface, as the platform does
    /// when a user types; returns its fresh identifier.
    pub fn post_user_message(&mut self, user: i64, text: &str) -> (id: i64)
        requires
            old(self)@.next_message_id < 0x7fff_ffff_ffff_ffff,
        ensures
            id == old(self)@.next_message_id,
            final(self)@.messages == old(self)@.messages.push(
                MessageModel {
                    id: id,
                    user: user,
                    from_bot: false,
                    text: text@,
                    image: None,
                    keyboard: KeyboardKind::NoKeyboard,
                },
            ),
            final(self)@.next_message_id == old(self)@.next_message_id + 1,
            final(self)@.uploads == old(self)@.uploads,
            final(self)@.next_file_id == old(self)@.next_file_id,
    {
        let id = self.next_message_id;
        let msg = ChatMessage {
            id: id,
            user: user,
            from_bot: false,
            text: text.to_owned(),
            image: None,
            keyboard: KeyboardKind::NoKeyboard,
        };
        self.messages.push(msg);
        self.next_message_id = self.next_message_id + 1;
        proof {
            assert(self@.messages =~= old(self)@.messages.push(
                MessageModel {
                    id: id,
                    user: user,
                    from_bot: false,
                    text: text@,
                    image: None,
                    keyboard: KeyboardKind::NoKeyboard,
                },
            ));
        }
        id
    }

    /// Deletes the message with the given identifier from a user's chat.
    /// Deleting a message that is no longer there is not an error: nothing
    /// changes.
    pub fn delete_message(&mut self, user: i64, id: i64)
        ensures
            final(self)@.messages == old(self)@.messages.filter(
                |m: MessageModel| !(m.user == user && m.id == id),
            ),
            final(self)@.next_message_id == old(self)@.next_message_id,
            final(self)@.uploads == old(self)@.uploads,
            final(self)@.next_file_id == old(self)@.next_file_id,
    {
        broadcast use Seq::lemma_filter_push;

        let ghost pred = |m: MessageModel| !(m.user == user && m.id == id);
        let n = self.messages.len();
        let mut kept: Vec<ChatMessage> = Vec::new();
        let mut i: usize = 0;
        while i < n
            invariant
                n == self.messages@.len(),
                i <= n,
                kept@.map_values(|m: ChatMessage| m@) == self@.messages.take(i as int).filter(
                    pred,
                ),
                pred == (|m: MessageModel| !(m.user == user && m.id == id)),
            decreases n - i,
        {
            let ghost prev = kept@.map_values(|m: ChatMessage| m@);
            let ghost cur = self@.messages[i as int];
            proof {
                assert(self@.messages.take(i + 1) =~= self@.messages.take(i as int).push(cur));
            }
            let m = &self.messages[i];
            if !(m.user == user && m.id == id) {
                let copy = m.duplicate();
                kept.push(copy);
                proof {
                    assert(pred(cur));
                    self@.messages.take(i as int).lemma_filter_push(cur, pred);
                    assert(kept@.map_values(|m: ChatMessage| m@) =~= prev.push(cur));
                }
            } else {
                proof {
                    assert(!pred(cur));
                    self@.messages.take(i as int).lemma_filter_push(cur, pred);
                }
            }
            i += 1;
        }
        proof {
            assert(self@.messages.take(n as int) =~= self@.messages);
        }
        self.messages = kept;
    }

    /// Edits the text and keyboard of a bot-authored message in place.
    /// Succeeds exactly when the message is still visible; the message
    /// keeps its identifier and any attached media.
    pub fn edit_bot_message(&mut self, user: i64, id: i64, text: &str, keyboard: KeyboardKind) -> (ok:
        bool)
        ensures
            ok == spec_find_bot_message(old(self)@.messages, user, id) is Some,
            match spec_find_bot_message(old(self)@.messages, user, id) {
                Some(i) => final(self)@.messages == old(self)@.messages.update(
                    i,
                    MessageModel {
                        id: old(self)@.messages[i].id,
                        user: old(self)@.messages[i].user,
                        from_bot: old(self)@.messages[i].from_bot,
                        text: text@,
                        image: old(self)@.messages[i].image,
                        keyboard: keyboard,
                    },
                ),
                None => final(self)@.messages == old(self)@.messages,
            },
            final(self)@.next_message_id == old(self)@.next_message_id,
            final(self)@.uploads == old(self)@.uploads,
            final(self)@.next_file_id == old(self)@.next_file_id,
    {
        let n = self.messages.len();
        let mut i: usize = 0;
        while i < n
            invariant
                n == self.messages@.len(),
                i <= n,
                *self == *old(self),
                forall|j: int| 0 <= j < i ==> !spec_is_bot_message(
                    #[trigger] self@.messages[j],
                    user,
                    id,
                ),
            decreases n - i,
        {
            let m = &self.messages[i];
            if m.user == user && m.id == id && m.from_bot {
                proof {
                    lemma_find_bot_message_first(self@.messages, user, id, i as int);
                }
                let updated = ChatMessage {
                    id: m.id,
                    user: m.user,
                    from_bot: m.from_bot,
                    text: text.to_owned(),
                    image: match &m.image {
                        Some(h) => Some(h.duplicate()),
                        None => None,
                    },
                    keyboard: keyboard,
                };
                self.messages.set(i, updated);
                proof {
                    assert(self@.messages =~= old(self)@.messages.update(
                        i as int,
                        MessageModel {
                            id: old(self)@.messages[i as int].id,
                            user: old(self)@.messages[i as int].user,
                            from_bot: old(self)@.messages[i as int].from_bot,
                            text: text@,
                            image: old(self)@.messages[i as int].image,
                            keyboard: keyboard,
                        },
                    ));
                }
                return true;
            }
            i += 1;
        }
        proof {
            lemma_find_bot_message_none(self@.messages, user, id);
        }
        false
    }

    /// Uploads media to the side channel: the platform assigns the next
    /// media identifier and hands back a handle carrying the bytes'
    /// reference blob.
    pub fn upload_photo(&mut self, bytes: &[u8]) -> (h: ImageHandle)
        requires
            old(self)@.next_file_id < 0x7fff_ffff_ffff_ffff,
            old(self)@.uploads < 0xffff_ffff_ffff_ffff,
        ensures
            h@ == (HandleModel {
                file_id: old(self)@.next_file_id,
                access_hash: old(self)@.next_file_id,
                file_reference: bytes@,
            }),
            final(self)@.messages == old(self)@.messages,
            final(self)@.next_message_id == old(self)@.next_message_id,
            final(self)@.uploads == old(self)@.uploads + 1,
            final(self)@.next_file_id == old(self)@.next_file_id + 1,
    {
        let file_id = self.next_file_id;
        self.next_file_id = self.next_file_id + 1;
        self.uploads = self.uploads + 1;
        ImageHandle { file_id: file_id, access_hash: file_id, file_reference: slice_to_vec(bytes) }
    }

    /// Read access to the visible messages, for observation.
    pub fn messages(&self) -> (v: &Vec<ChatMessage>)
        ensures
            v@.map_values(|m: ChatMessage| m@) == self@.messages,
    {
        &self.messages
    }

    /// The number of media uploads received so far.
    pub fn upload_count(&self) -> (n: u64)
        ensures
            n == self@.uploads,
    {
        self.uploads
    }

    /// Counts the bot-authored messages visible in one user's chat.
    pub fn count_bot_messages(&self, user: i64) -> (n: usize)
        ensures
            n == spec_bot_messages(self@.messages, user).len(),
    {
        broadcast use Seq::lemma_filter_push;

        let ghost pred = |m: MessageModel| m.user == user && m.from_bot;
        let total = self.messages.len();
        let mut n: usize = 0;
        let mut i: usize = 0;
        while i < total
            invariant
                total == self.messages@.len(),
                i <= total,
                n == self@.messages.take(i as int).filter(pred).len(),
                n <= i,
                pred == (|m: MessageModel| m.user == user && m.from_bot),
            decreases total - i,
        {
            let ghost cur = self@.messages[i as int];
            proof {
                assert(self@.messages.take(i + 1) =~= self@.messages.take(i as int).push(cur));
            }
            let m = &self.messages[i];
            if m.user == user && m.from_bot {
                proof {
                    assert(pred(cur));
                    self@.messages.take(i as int).lemma_filter_push(cur, pred);
                }
                n += 1;
            } else {
                proof {
                    assert(!pred(cur));
                    self@.messages.take(i as int).lemma_filter_push(cur, pred);
                }
            }
            i += 1;
        }
        proof {
            assert(self@.messages.take(total as int) =~= self@.messages);
        }
        n
    }
}

/// Whether a message is the bot message with this identifier in this
/// user's chat.
pub open spec fn spec_is_bot_message(m: MessageModel, user: i64, id: i64) -> bool {
    m.user == user && m.id == id && m.from_bot
}

/// The first index holding the bot message with this identifier in this
/// user's chat, if any.
pub open spec fn spec_find_bot_message(msgs: Seq<MessageModel>, user: i64, id: i64) -> Option<int>
    decreases msgs.len(),
{
    if msgs.len() == 0 {
        None
    } else if spec_is_bot_message(msgs[0], user, id) {
        Some(0)
    } else {
        match spec_find_bot_message(msgs.drop_first(), user, id) {
            Some(i) => Some(i + 1),
            None => None,
        }
    }
}

/// A found index is in range and holds the message looked for.
pub proof fn lemma_find_bot_message_in_range(msgs: Seq<MessageModel>, user: i64, id: i64)
    ensures
        match spec_find_bot_message(msgs, user, id) {
            Some(i) => 0 <= i < msgs.len() && spec_is_bot_message(msgs[i], user, id),
            None => true,
        },
    decreases msgs.len(),
{
    if msgs.len() == 0 {
    } else if spec_is_bot_message(msgs[0], user, id) {
    } else {
        lemma_find_bot_message_in_range(msgs.drop_first(), user, id);
    }
}

/// When nothing before `i` matches and `i` matches, `i` is the first
/// match.
proof fn lemma_find_bot_message_first(msgs: Seq<MessageModel>, user: i64, id: i64, i: int)
    requires
        0 <= i < msgs.len(),
        spec_is_bot_message(msgs[i], user, id),
        forall|j: int| 0 <= j < i ==> !spec_is_bot_message(#[trigger] msgs[j], user, id),
    ensures
        spec_find_bot_message(msgs, user, id) == Some(i),
    decreases i,
{
    if i == 0 {
    } else {
        assert(!spec_is_bot_message(msgs[0], user, id));
        lemma_find_bot_message_first(msgs.drop_first(), user, id, i - 1);
    }
}

/// When nothing matches, there is no first match.
proof fn lemma_find_bot_message_none(msgs: Seq<MessageModel>, user: i64, id: i64)
    requires
        forall|j: int| 0 <= j < msgs.len() ==> !spec_is_bot_message(#[trigger] msgs[j], user, id),
    ensures
        spec_find_bot_message(msgs, user, id) is None,
    decreases msgs.len(),
{
    if msgs.len() == 0 {
    } else {
        lemma_find_bot_message_none(msgs.drop_first(), user, id);
    }
}

} // verus!
