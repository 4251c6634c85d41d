//! An order's conversation: its identity is the order, so it is opened once; a message id is posted
//! once, a customer posts only where the restaurant enabled customer chat; a translation targets a
//! posted message and is cached once per locale; a mute carries a reason and only a muted role is
//! unmuted.

use vstd::prelude::*;
use crate::errors::{has_text, is_blank, reject1, reject2, reject3, trim, ContextValue, DomainError};

verus! {

/// What the conversation's decisions read of it, folded from its stream.
#[derive(Debug, Clone, PartialEq, Eq)]
pub struct ConversationState {
    pub customer_chat_enabled: bool,
    pub message_ids: Vec<u128>,
    /// The cached translations, as (message, locale).
    pub translations: Vec<(u128, String)>,
    /// The roles currently muted, by wire name.
    pub muted_roles: Vec<String>,
}

/// The `ConversationNotFound` rejection: the order's conversation was never opened.
pub fn conversation_not_found(order_id: u128) -> (e: DomainError)
    ensures
        e.rejected_code() == Some("ConversationNotFound"@),
        e.context_value("orderId"@) == Some(ContextValue::Id(order_id)),
{
    reject1("ConversationNotFound", "orderId", ContextValue::Id(order_id))
}

/// The conversation exists, or the command is refused with `ConversationNotFound`.
pub fn require_conversation(order_id: u128, conversation: Option<ConversationState>) -> (r: Result<ConversationState, DomainError>)
    ensures
        conversation matches Some(c) ==> r == Ok::<ConversationState, DomainError>(c),
        conversation is None ==> r is Err && r->Err_0.rejected_code() == Some("ConversationNotFound"@)
            && r->Err_0.context_value("orderId"@) == Some(ContextValue::Id(order_id)),
{
    match conversation {
        Some(c) => Ok(c),
        None => Err(conversation_not_found(order_id)),
    }
}

/// The `ConversationAlreadyOpen` refusal: the order's conversation exists (or was opened by a racing
/// writer).
pub fn conversation_already_open(order_id: u128) -> (e: DomainError)
    ensures
        e.rejected_code() == Some("ConversationAlreadyOpen"@),
        e.context_value("orderId"@) == Some(ContextValue::Id(order_id)),
{
    reject1("ConversationAlreadyOpen", "orderId", ContextValue::Id(order_id))
}

/// A conversation is opened once per order.
pub fn open_conversation(order_id: u128, already_open: bool) -> (r: Result<(), DomainError>)
    ensures
        already_open ==> r is Err && r->Err_0.rejected_code() == Some("ConversationAlreadyOpen"@)
            && r->Err_0.context_value("orderId"@) == Some(ContextValue::Id(order_id)),
        !already_open ==> r is Ok,
{
    if already_open {
        return Err(conversation_already_open(order_id));
    }
    Ok(())
}

/// What the conversation's own precondition answered for the posting actor.
#[derive(Debug, Clone, Copy, PartialEq, Eq, Structural)]
pub enum PostRequires {
    Allowed,
    NotAParticipant,
    RoleMismatch,
}

/// The `PostMessage` command.
#[derive(Debug, Clone, PartialEq, Eq)]
pub struct PostMessage {
    pub order_id: u128,
    pub message_id: u128,
    /// The author's role, as the command names it (`"CUSTOMER"`, ...).
    pub author_role: String,
    pub visibility: String,
    pub body: String,
    pub original_locale: Option<String>,
    pub attachment_refs: Vec<String>,
}

/// The fact an accepted message appends to its conversation's stream.
#[derive(Debug, Clone, PartialEq, Eq)]
pub struct MessagePosted {
    pub order_id: u128,
    pub message_id: u128,
    pub author_role: String,
    pub visibility: String,
    pub body: String,
    pub original_locale: Option<String>,
    pub attachment_refs: Vec<String>,
}

/// The fact of an accepted `cmd`: the command's order, message, author role, visibility, body,
/// original locale and attachments, as given.
pub open spec fn message_posted_of(cmd: PostMessage) -> MessagePosted {
    MessagePosted {
        order_id: cmd.order_id,
        message_id: cmd.message_id,
        author_role: cmd.author_role,
        visibility: cmd.visibility,
        body: cmd.body,
        original_locale: cmd.original_locale,
        attachment_refs: cmd.attachment_refs,
    }
}

/// What posting `cmd` answers (see `post_message`).
pub open spec fn post_message_outcome(cmd: PostMessage, conversation: Option<ConversationState>, precondition: PostRequires,
    r: Result<MessagePosted, DomainError>) -> bool
{
        match conversation {
            None => r is Err && r->Err_0.rejected_code() == Some("ConversationNotFound"@)
                && r->Err_0.context_value("orderId"@) == Some(ContextValue::Id(cmd.order_id)),
            Some(c) => if precondition == PostRequires::NotAParticipant {
                r is Err && r->Err_0.rejected_code() == Some("NotAParticipant"@)
                    && r->Err_0.context_value("orderId"@) == Some(ContextValue::Id(cmd.order_id))
            } else if precondition == PostRequires::RoleMismatch {
                r is Err && r->Err_0.rejected_code() == Some("RoleMismatch"@)
                    && r->Err_0.context_value("orderId"@) == Some(ContextValue::Id(cmd.order_id))
            } else if cmd.author_role@ == "CUSTOMER"@ && !c.customer_chat_enabled {
                r is Err && r->Err_0.rejected_code() == Some("CustomerChatDisabled"@)
                    && r->Err_0.context_value("orderId"@) == Some(ContextValue::Id(cmd.order_id))
            } else if c.message_ids@.contains(cmd.message_id) {
                r is Err && r->Err_0.rejected_code() == Some("MessageAlreadyPosted"@)
                    && r->Err_0.context_value("messageId"@) == Some(ContextValue::Id(cmd.message_id))
            } else {
                r == Ok::<MessagePosted, DomainError>(message_posted_of(cmd))
            },
        }
}

/// A message is posted: the guards, in order — the conversation exists (`ConversationNotFound`), the
/// actor's own precondition (`NotAParticipant`, `RoleMismatch`), a customer may post only while
/// customer chat is enabled (`CustomerChatDisabled`), a message id is posted once
/// (`MessageAlreadyPosted`) — and, once they all pass, the one `MessagePosted` fact to append; a
/// refusal appends nothing.
pub fn post_message(cmd: PostMessage, conversation: &Option<ConversationState>, precondition: PostRequires)
    -> (r: Result<MessagePosted, DomainError>)
    ensures
        post_message_outcome(cmd, *conversation, precondition, r),
{
    proof {
        reveal_strlit("orderId");
    }
    let c = match conversation {
        None => {
            return Err(conversation_not_found(cmd.order_id));
        }
        Some(c) => c,
    };
    match precondition {
        PostRequires::NotAParticipant => {
            return Err(reject1("NotAParticipant", "orderId", ContextValue::Id(cmd.order_id)));
        }
        PostRequires::RoleMismatch => {
            return Err(reject1("RoleMismatch", "orderId", ContextValue::Id(cmd.order_id)));
        }
        PostRequires::Allowed => {}
    }
    if crate::text::same_text(&cmd.author_role, "CUSTOMER") && !c.customer_chat_enabled {
        return Err(reject1("CustomerChatDisabled", "orderId", ContextValue::Id(cmd.order_id)));
    }
    if crate::cart::ids_contain(&c.message_ids, cmd.message_id) {
        proof {
            reveal_strlit("messageId");
        }
        return Err(reject1("MessageAlreadyPosted", "messageId", ContextValue::Id(cmd.message_id)));
    }
    Ok(MessagePosted {
        order_id: cmd.order_id,
        message_id: cmd.message_id,
        author_role: cmd.author_role,
        visibility: cmd.visibility,
        body: cmd.body,
        original_locale: cmd.original_locale,
        attachment_refs: cmd.attachment_refs,
    })
}

/// A message is refused for exactly its first failing guard and posted otherwise: no conversation,
/// then the actor's own precondition, then a customer while customer chat is off, then a message id
/// already posted; a refusal carries no fact.
pub proof fn law_message_guards_refuse_in_order(cmd: PostMessage, conversation: Option<ConversationState>,
    precondition: PostRequires, r: Result<MessagePosted, DomainError>)
    requires
        post_message_outcome(cmd, conversation, precondition, r),
    ensures
        conversation is None ==> r is Err && r->Err_0.rejected_code() == Some("ConversationNotFound"@),
        conversation matches Some(c) ==> {
            &&& precondition == PostRequires::NotAParticipant ==> r->Err_0.rejected_code() == Some("NotAParticipant"@)
            &&& precondition == PostRequires::RoleMismatch ==> r->Err_0.rejected_code() == Some("RoleMismatch"@)
            &&& precondition == PostRequires::Allowed && cmd.author_role@ == "CUSTOMER"@ && !c.customer_chat_enabled
                ==> r->Err_0.rejected_code() == Some("CustomerChatDisabled"@)
            &&& precondition == PostRequires::Allowed && !(cmd.author_role@ == "CUSTOMER"@ && !c.customer_chat_enabled)
                ==> (r is Ok <==> !c.message_ids@.contains(cmd.message_id))
        },
        r is Ok <==> (conversation matches Some(c) && precondition == PostRequires::Allowed
            && !(cmd.author_role@ == "CUSTOMER"@ && !c.customer_chat_enabled) && !c.message_ids@.contains(cmd.message_id)),
{
}

/// An accepted message is posted as written: once every guard passes, the one fact appended carries
/// the command's order, message id, author role, visibility, body, original locale and attachments,
/// exactly as the command gave them; and a message id already posted is never posted again.
pub proof fn law_accepted_message_is_posted_as_written(cmd: PostMessage, c: ConversationState,
    r: Result<MessagePosted, DomainError>)
    requires
        post_message_outcome(cmd, Some(c), PostRequires::Allowed, r),
        !(cmd.author_role@ == "CUSTOMER"@ && !c.customer_chat_enabled),
    ensures
        !c.message_ids@.contains(cmd.message_id) ==> (r matches Ok(m) && {
            &&& m.order_id == cmd.order_id
            &&& m.message_id == cmd.message_id
            &&& m.author_role == cmd.author_role
            &&& m.visibility == cmd.visibility
            &&& m.body == cmd.body
            &&& m.original_locale == cmd.original_locale
            &&& m.attachment_refs == cmd.attachment_refs
        }),
        c.message_ids@.contains(cmd.message_id) ==> r is Err
            && r->Err_0.rejected_code() == Some("MessageAlreadyPosted"@),
{
}

/// Whether a translation of `message_id` into `locale` is already cached.
pub open spec fn translation_cached(translations: Seq<(u128, String)>, message_id: u128, locale: Seq<char>) -> bool {
    exists|i: int| 0 <= i < translations.len() && (#[trigger] translations[i]).0 == message_id
        && translations[i].1@ == locale
}

fn has_translation(translations: &Vec<(u128, String)>, message_id: u128, locale: &String) -> (b: bool)
    ensures
        b == translation_cached(translations@, message_id, locale@),
{
    let mut i: usize = 0;
    while i < translations.len()
        invariant
            i <= translations@.len(),
            forall|j: int| 0 <= j < i ==> !((#[trigger] translations@[j]).0 == message_id && translations@[j].1@ == locale@),
        decreases translations.len() - i,
    {
        let (id, l) = &translations[i];
        if *id == message_id && *l == *locale {
            return true;
        }
        i += 1;
    }
    false
}

/// A translation targets a posted message (`MessageNotFoundInConversation`) and is cached once per
/// (message, locale) (`TranslationAlreadyRecorded`).
pub fn record_message_translation(order_id: u128, message_id: u128, locale: &String, conversation: &ConversationState)
    -> (r: Result<(), DomainError>)
    ensures
        !conversation.message_ids@.contains(message_id) ==> r is Err
            && r->Err_0.rejected_code() == Some("MessageNotFoundInConversation"@)
            && r->Err_0.context_value("orderId"@) == Some(ContextValue::Id(order_id))
            && r->Err_0.context_value("messageId"@) == Some(ContextValue::Id(message_id)),
        conversation.message_ids@.contains(message_id) && translation_cached(conversation.translations@, message_id, locale@)
            ==> r is Err && r->Err_0.rejected_code() == Some("TranslationAlreadyRecorded"@)
            && r->Err_0.context_value("messageId"@) == Some(ContextValue::Id(message_id))
            && has_text(r->Err_0, "locale"@, locale@),
        conversation.message_ids@.contains(message_id) && !translation_cached(conversation.translations@, message_id, locale@)
            ==> r is Ok,
{
    proof {
        reveal_strlit("orderId");
        reveal_strlit("messageId");
        reveal_strlit("locale");
        assert("orderId"@.len() != "messageId"@.len());
        assert("orderId"@.len() != "locale"@.len());
        assert("messageId"@.len() != "locale"@.len());
    }
    if !crate::cart::ids_contain(&conversation.message_ids, message_id) {
        return Err(reject2("MessageNotFoundInConversation", "orderId", ContextValue::Id(order_id), "messageId",
            ContextValue::Id(message_id)));
    }
    if has_translation(&conversation.translations, message_id, locale) {
        return Err(reject3("TranslationAlreadyRecorded", "orderId", ContextValue::Id(order_id), "messageId",
            ContextValue::Id(message_id), "locale", ContextValue::Text(locale.clone())));
    }
    Ok(())
}

/// A mute is justified: its reason, trimmed of white space, is not empty (else
/// `MuteReasonRequired`). The answer is the reason as given.
pub fn mute_participant(order_id: u128, reason: Option<String>) -> (r: Result<String, DomainError>)
    ensures
        (reason matches Some(s) && trim(s@).len() > 0) ==> r == Ok::<String, DomainError>(reason->0),
        !(reason matches Some(s) && trim(s@).len() > 0) ==> r is Err
            && r->Err_0.rejected_code() == Some("MuteReasonRequired"@)
            && r->Err_0.context_value("orderId"@) == Some(ContextValue::Id(order_id)),
{
    match reason {
        Some(s) => {
            if is_blank(&s) {
                return Err(reject1("MuteReasonRequired", "orderId", ContextValue::Id(order_id)));
            }
            Ok(s)
        }
        None => Err(reject1("MuteReasonRequired", "orderId", ContextValue::Id(order_id))),
    }
}

/// Whether `role` is currently muted.
pub open spec fn is_muted(muted_roles: Seq<String>, role: Seq<char>) -> bool {
    exists|i: int| 0 <= i < muted_roles.len() && (#[trigger] muted_roles[i])@ == role
}

/// Only a muted role is unmuted (`ParticipantNotMuted`, naming it).
pub fn unmute_participant(order_id: u128, muted_role: &String, conversation: &ConversationState)
    -> (r: Result<(), DomainError>)
    ensures
        is_muted(conversation.muted_roles@, muted_role@) ==> r is Ok,
        !is_muted(conversation.muted_roles@, muted_role@) ==> r is Err
            && r->Err_0.rejected_code() == Some("ParticipantNotMuted"@)
            && r->Err_0.context_value("orderId"@) == Some(ContextValue::Id(order_id))
            && has_text(r->Err_0, "mutedRole"@, muted_role@),
{
    let mut i: usize = 0;
    while i < conversation.muted_roles.len()
        invariant
            i <= conversation.muted_roles@.len(),
            forall|j: int| 0 <= j < i ==> (#[trigger] conversation.muted_roles@[j])@ != muted_role@,
        decreases conversation.muted_roles.len() - i,
    {
        if conversation.muted_roles[i] == *muted_role {
            return Ok(());
        }
        i += 1;
    }
    proof {
        reveal_strlit("orderId");
        reveal_strlit("mutedRole");
        assert("orderId"@.len() != "mutedRole"@.len());
    }
    Err(reject2("ParticipantNotMuted", "orderId", ContextValue::Id(order_id), "mutedRole",
        ContextValue::Text(muted_role.clone())))
}

} // verus!
