//! The message lifecycle: at most one bot-authored message is visible per
//! user. Every send first deletes the message recorded for the user, then
//! sends the new content, then records the new identifier; an edit
//! falls back to that protocol when the message to edit is gone.

use vstd::prelude::*;

use crate::i18n::KeyboardKind;
use crate::image_cache::AssetCacheStore;
use crate::image_cache::AssetError;
use crate::image_cache::AssetRepo;
use crate::image_cache::spec_resolve;
use crate::platform::ChatPlatform;
use crate::platform::HandleModel;
use crate::platform::ImageHandle;
use crate::platform::MessageModel;
use crate::platform::PlatformModel;
use crate::platform::spec_bot_messages;
use crate::platform::spec_find_bot_message;
use crate::session::Session;
use crate::session::spec_session_of;
use crate::store::SessionStore;

verus! {

/// The display discipline's invariant: every bot-authored message still
/// visible in a user's chat is the one the session store records for that
/// user. In particular a user whose row records no message sees no bot
/// message at all.
pub open spec fn spec_message_inv(sessions: Map<i64, Session>, msgs: Seq<MessageModel>) -> bool {
    forall|j: int|
        0 <= j < msgs.len() && (#[trigger] msgs[j]).from_bot ==> spec_session_of(
            sessions,
            msgs[j].user,
        ).last_message_id == Some(msgs[j].id)
}

/// Every element of a filtered sequence comes from the sequence.
pub(crate) proof fn lemma_filter_subset(s: Seq<MessageModel>, pred: spec_fn(MessageModel) -> bool)
    ensures
        forall|i: int|
            0 <= i < s.filter(pred).len() ==> exists|k: int|
                0 <= k < s.len() && s[k] == #[trigger] s.filter(pred)[i],
    decreases s.len(),
{
    if s.len() == 0 {
        reveal(Seq::filter);
    } else {
        reveal(Seq::filter);
        let rest = s.drop_last();
        lemma_filter_subset(rest, pred);
        assert forall|i: int| 0 <= i < s.filter(pred).len() implies exists|k: int|
            0 <= k < s.len() && s[k] == #[trigger] s.filter(pred)[i] by {
            if i < rest.filter(pred).len() {
                let k = choose|k: int| 0 <= k < rest.len() && rest[k] == rest.filter(pred)[i];
                assert(s[k] == s.filter(pred)[i]);
            } else {
                assert(s[s.len() - 1] == s.filter(pred)[i]);
            }
        }
    }
}

/// A sequence none of whose elements passes the filter filters to
/// nothing.
pub(crate) proof fn lemma_filter_all_out(s: Seq<MessageModel>, pred: spec_fn(MessageModel) -> bool)
    requires
        forall|j: int| 0 <= j < s.len() ==> !pred(#[trigger] s[j]),
    ensures
        s.filter(pred) == Seq::<MessageModel>::empty(),
    decreases s.len(),
{
    reveal(Seq::filter);
    if s.len() == 0 {
        assert(s.filter(pred) =~= Seq::<MessageModel>::empty());
    } else {
        lemma_filter_all_out(s.drop_last(), pred);
        assert(!pred(s.last()));
    }
}

/// The chat surface after one smart send for a user: the message the
/// session store recorded for the user is gone, and the new message, with
/// the platform's next identifier, stands at the end.
pub open spec fn spec_send_smart_messages(
    sessions: Map<i64, Session>,
    platform: PlatformModel,
    user: i64,
    text: Seq<char>,
    image: Option<HandleModel>,
    keyboard: KeyboardKind,
) -> Seq<MessageModel> {
    let cleaned = match spec_session_of(sessions, user).last_message_id {
        Some(old_id) => platform.messages.filter(
            |m: MessageModel| !(m.user == user && m.id == old_id),
        ),
        None => platform.messages,
    };
    cleaned.push(
        MessageModel {
            id: platform.next_message_id,
            user: user,
            from_bot: true,
            text: text,
            image: image,
            keyboard: keyboard,
        },
    )
}

/// Shows one message to a user under the single-visible-message
/// discipline: deletes the recorded previous message, sends the new text
/// (with media, when given), and records the new identifier. Afterwards
/// exactly one bot-authored message is visible in that user's chat, and
/// the discipline's invariant still holds for every user.
pub fn send_smart(
    sessions: &mut SessionStore,
    platform: &mut ChatPlatform,
    user: i64,
    text: &str,
    keyboard: KeyboardKind,
    image: Option<ImageHandle>,
) -> (id: i64)
    requires
        old(platform)@.next_message_id < 0x7fff_ffff_ffff_ffff,
        spec_message_inv(old(sessions)@, old(platform)@.messages),
    ensures
        id == old(platform)@.next_message_id,
        final(platform)@.messages == spec_send_smart_messages(
            old(sessions)@,
            old(platform)@,
            user,
            text@,
            match image {
                Some(h) => Some(h@),
                None => None,
            },
            keyboard,
        ),
        final(sessions)@ == old(sessions)@.insert(
            user,
            Session {
                state: old(sessions).spec_get(user).state,
                language: old(sessions).spec_get(user).language,
                last_message_id: Some(id),
            },
        ),
        final(platform)@.next_message_id == old(platform)@.next_message_id + 1,
        final(platform)@.uploads == old(platform)@.uploads,
        final(platform)@.next_file_id == old(platform)@.next_file_id,
        spec_message_inv(final(sessions)@, final(platform)@.messages),
        spec_bot_messages(final(platform)@.messages, user).len() == 1,
{
    broadcast use Seq::lemma_filter_pred;

    let ghost old_sessions = sessions@;
    let ghost old_msgs = platform@.messages;
    let session = sessions.get(user);
    match session.last_message_id {
        Some(old_id) => {
            platform.delete_message(user, old_id);
            proof {
                let pred = |m: MessageModel| !(m.user == user && m.id == old_id);
                let cleaned = old_msgs.filter(pred);
                lemma_filter_subset(old_msgs, pred);
                assert forall|j: int| 0 <= j < cleaned.len() implies !((#[trigger] cleaned[j]).user
                    == user && cleaned[j].from_bot) by {
                    Seq::lemma_filter_pred(old_msgs, pred, j);
                    let k = choose|k: int| 0 <= k < old_msgs.len() && old_msgs[k] == cleaned[j];
                    if cleaned[j].user == user && cleaned[j].from_bot {
                        assert(spec_session_of(old_sessions, user).last_message_id == Some(
                            cleaned[j].id,
                        ));
                    }
                }
            }
        },
        None => {
            proof {
                assert forall|j: int| 0 <= j < old_msgs.len() implies !((#[trigger] old_msgs[j]).user
                    == user && old_msgs[j].from_bot) by {
                    if old_msgs[j].user == user && old_msgs[j].from_bot {
                        assert(spec_session_of(old_sessions, user).last_message_id == Some(
                            old_msgs[j].id,
                        ));
                    }
                }
            }
        },
    }
    let ghost cleaned = platform@.messages;
    proof {
        assert forall|j: int| 0 <= j < cleaned.len() && (#[trigger] cleaned[j]).from_bot implies
            spec_session_of(old_sessions, cleaned[j].user).last_message_id == Some(
            cleaned[j].id,
        ) && cleaned[j].user != user by {
            match spec_session_of(old_sessions, user).last_message_id {
                Some(old_id) => {
                    let pred = |m: MessageModel| !(m.user == user && m.id == old_id);
                    lemma_filter_subset(old_msgs, pred);
                    Seq::lemma_filter_pred(old_msgs, pred, j);
                    let k = choose|k: int| 0 <= k < old_msgs.len() && old_msgs[k] == cleaned[j];
                    assert(old_msgs[k].from_bot);
                },
                None => {
                },
            }
        }
    }
    let id = platform.send_bot_message(user, text, image, keyboard);
    sessions.set_last_message_id(user, id);
    proof {
        let bot_pred = |m: MessageModel| m.user == user && m.from_bot;
        let new_msg = platform@.messages.last();
        assert(platform@.messages == cleaned.push(new_msg));
        assert forall|j: int| 0 <= j < cleaned.len() implies !bot_pred(#[trigger] cleaned[j]) by {
        }
        lemma_filter_all_out(cleaned, bot_pred);
        cleaned.lemma_filter_push(new_msg, bot_pred);
        assert(spec_bot_messages(platform@.messages, user) =~= Seq::<
            MessageModel,
        >::empty().push(new_msg));
    }
    id
}

/// Edits the recorded message in place when it is still visible: the text
/// and keyboard change, the identifier and any media stay, nothing else
/// moves. When the message is gone the full smart-send protocol runs
/// instead. Either way the returned identifier is the one recorded
/// afterwards, and the display discipline's invariant still holds.
pub fn edit_smart(
    sessions: &mut SessionStore,
    platform: &mut ChatPlatform,
    user: i64,
    message_id: i64,
    text: &str,
    keyboard: KeyboardKind,
) -> (id: i64)
    requires
        old(platform)@.next_message_id < 0x7fff_ffff_ffff_ffff,
        spec_message_inv(old(sessions)@, old(platform)@.messages),
    ensures
        match spec_find_bot_message(old(platform)@.messages, user, message_id) {
            Some(i) => {
                &&& id == message_id
                &&& final(platform)@.messages == old(platform)@.messages.update(
                    i,
                    MessageModel {
                        id: old(platform)@.messages[i].id,
                        user: old(platform)@.messages[i].user,
                        from_bot: old(platform)@.messages[i].from_bot,
                        text: text@,
                        image: old(platform)@.messages[i].image,
                        keyboard: keyboard,
                    },
                )
                &&& final(sessions)@ == old(sessions)@
                &&& final(platform)@.next_message_id == old(platform)@.next_message_id
            },
            None => {
                &&& id == old(platform)@.next_message_id
                &&& final(platform)@.messages == spec_send_smart_messages(
                    old(sessions)@,
                    old(platform)@,
                    user,
                    text@,
                    None,
                    keyboard,
                )
                &&& final(sessions)@ == old(sessions)@.insert(
                    user,
                    Session {
                        state: old(sessions).spec_get(user).state,
                        language: old(sessions).spec_get(user).language,
                        last_message_id: Some(id),
                    },
                )
                &&& final(platform)@.next_message_id == old(platform)@.next_message_id + 1
            },
        },
        final(platform)@.uploads == old(platform)@.uploads,
        final(platform)@.next_file_id == old(platform)@.next_file_id,
        spec_message_inv(final(sessions)@, final(platform)@.messages),
{
    let edited = platform.edit_bot_message(user, message_id, text, keyboard);
    if edited {
        proof {
            let oldm = old(platform)@.messages;
            let newm = platform@.messages;
            crate::platform::lemma_find_bot_message_in_range(oldm, user, message_id);
            assert(sessions@ == old(sessions)@);
            assert(newm.len() == oldm.len());
            assert forall|j: int|
                0 <= j < newm.len() && (#[trigger] newm[j]).from_bot implies spec_session_of(
                sessions@,
                newm[j].user,
            ).last_message_id == Some(newm[j].id) by {
                assert(newm[j].user == oldm[j].user);
                assert(newm[j].id == oldm[j].id);
                assert(newm[j].from_bot == oldm[j].from_bot);
                assert(oldm[j].from_bot ==> spec_session_of(
                    old(sessions)@,
                    oldm[j].user,
                ).last_message_id == Some(oldm[j].id));
            }
        }
        message_id
    } else {
        send_smart(sessions, platform, user, text, keyboard, None)
    }
}

/// Shows an image with a caption to a user: resolves the logical asset
/// through the cache (uploading at most once), then runs the smart-send
/// protocol with the media attached. A failed resolution changes nothing
/// on the chat surface and leaves the caller to fall back to text.
pub fn send_smart_with_image(
    sessions: &mut SessionStore,
    platform: &mut ChatPlatform,
    cache: &mut AssetCacheStore,
    repo: &AssetRepo,
    user: i64,
    subfolder: &str,
    name: &str,
    caption: &str,
    keyboard: KeyboardKind,
) -> (r: Result<i64, AssetError>)
    requires
        old(platform)@.next_message_id < 0x7fff_ffff_ffff_ffff,
        old(platform)@.next_file_id < 0x7fff_ffff_ffff_ffff,
        old(platform)@.uploads < 0xffff_ffff_ffff_ffff,
        spec_message_inv(old(sessions)@, old(platform)@.messages),
    ensures
        ({
            let m = spec_resolve(
                old(cache)@,
                repo@,
                old(platform)@.uploads,
                old(platform)@.next_file_id,
                subfolder@,
                name@,
            );
            &&& final(cache)@ == m.cache
            &&& final(platform)@.uploads == m.uploads
            &&& final(platform)@.next_file_id == m.next_file_id
            &&& match r {
                Ok(id) => {
                    &&& m.result is Some
                    &&& id == old(platform)@.next_message_id
                    &&& final(platform)@.messages == spec_send_smart_messages(
                        old(sessions)@,
                        old(platform)@,
                        user,
                        caption@,
                        m.result,
                        keyboard,
                    )
                    &&& final(sessions)@ == old(sessions)@.insert(
                        user,
                        Session {
                            state: old(sessions).spec_get(user).state,
                            language: old(sessions).spec_get(user).language,
                            last_message_id: Some(id),
                        },
                    )
                    &&& final(platform)@.next_message_id == old(platform)@.next_message_id + 1
                    &&& spec_bot_messages(final(platform)@.messages, user).len() == 1
                },
                Err(e) => {
                    &&& m.result is None
                    &&& e == AssetError::MissingFile
                    &&& final(platform)@.messages == old(platform)@.messages
                    &&& final(platform)@.next_message_id == old(platform)@.next_message_id
                    &&& final(sessions)@ == old(sessions)@
                },
            }
        }),
        spec_message_inv(final(sessions)@, final(platform)@.messages),
        old(cache).wf() ==> final(cache).wf(),
{
    match crate::image_cache::get_cached_image(cache, repo, platform, subfolder, name) {
        Err(e) => Err(e),
        Ok(handle) => {
            let id = send_smart(sessions, platform, user, caption, keyboard, Some(handle));
            Ok(id)
        },
    }
}

} // verus!
