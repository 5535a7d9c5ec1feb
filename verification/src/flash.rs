//! One-shot flash notifications.
//!
//! A handler that changed something answers with a redirect and hands a
//! message over with it. The message travels beside the response, waits with
//! the client, and is shown by the next page that client asks for, once.
//! `FlashSlot` is the place where the message waits.

use vstd::prelude::*;
use crate::text::same_text;

verus! {

/// How grave a notification is.
#[derive(Debug, Clone, Copy, PartialEq, Eq)]
pub enum FlashKind {
    Success,
    Error,
}

/// A notification: its kind and the sentence shown to the user.
#[derive(Debug, PartialEq, Eq)]
pub struct FlashMessage {
    pub kind: FlashKind,
    pub message: String,
}

/// A notification as a mathematical value.
pub struct FlashView {
    pub kind: FlashKind,
    pub message: Seq<char>,
}

impl View for FlashMessage {
    type V = FlashView;

    open spec fn view(&self) -> FlashView {
        FlashView { kind: self.kind, message: self.message@ }
    }
}

impl Clone for FlashMessage {
    fn clone(&self) -> (copy: Self)
        ensures
            copy == *self,
    {
        FlashMessage { kind: self.kind, message: self.message.clone() }
    }
}

/// The view of an optional notification.
pub open spec fn flash_view(flash: Option<FlashMessage>) -> Option<FlashView> {
    match flash {
        Some(f) => Some(f@),
        None => None,
    }
}

impl FlashKind {
    /// The word that stands for this kind where a notification is written
    /// down.
    pub open spec fn word(self) -> Seq<char> {
        match self {
            FlashKind::Success => "success"@,
            FlashKind::Error => "error"@,
        }
    }

    /// The kind that a word stands for, if it stands for one.
    pub open spec fn of_word(word: Seq<char>) -> Option<FlashKind> {
        if word == "success"@ {
            Some(FlashKind::Success)
        } else if word == "error"@ {
            Some(FlashKind::Error)
        } else {
            None
        }
    }

    /// The word that stands for this kind.
    pub fn name(&self) -> (word: &'static str)
        ensures
            word@ == self.word(),
    {
        match self {
            FlashKind::Success => "success",
            FlashKind::Error => "error",
        }
    }

    /// The kind that `name` stands for: `success` or `error`, spelled so.
    pub fn from_name(name: &str) -> (kind: Option<FlashKind>)
        ensures
            kind == FlashKind::of_word(name@),
    {
        if same_text(name, "success") {
            Some(FlashKind::Success)
        } else if same_text(name, "error") {
            Some(FlashKind::Error)
        } else {
            None
        }
    }

    /// A kind is found again from its word.
    pub proof fn word_names_kind(self)
        ensures
            FlashKind::of_word(self.word()) == Some(self),
    {
        reveal_strlit("success");
        reveal_strlit("error");
        assert("success"@.len() != "error"@.len());
    }
}

impl FlashMessage {
    /// A notification of success.
    pub fn success(message: &str) -> (flash: FlashMessage)
        ensures
            flash@ == (FlashView { kind: FlashKind::Success, message: message@ }),
    {
        FlashMessage { kind: FlashKind::Success, message: message.to_owned() }
    }

    /// A notification of an error.
    pub fn error(message: &str) -> (flash: FlashMessage)
        ensures
            flash@ == (FlashView { kind: FlashKind::Error, message: message@ }),
    {
        FlashMessage { kind: FlashKind::Error, message: message.to_owned() }
    }

    /// The notification written down as a kind word and a sentence, if the
    /// word stands for a kind.
    pub fn from_parts(kind: &str, message: String) -> (flash: Option<FlashMessage>)
        ensures
            match FlashKind::of_word(kind@) {
                Some(k) => flash_view(flash) == Some(FlashView { kind: k, message: message@ }),
                None => flash is None,
            },
    {
        match FlashKind::from_name(kind) {
            Some(k) => Some(FlashMessage { kind: k, message }),
            None => None,
        }
    }
}

/// What a slot holds after a notification was emitted into it: that
/// notification, whatever waited there before.
pub open spec fn after_emit(slot: Option<FlashView>, flash: FlashView) -> Option<FlashView> {
    Some(flash)
}

/// What consuming a slot does: the slot is empty afterwards, and what waited
/// in it is handed out.
pub open spec fn on_consume(slot: Option<FlashView>) -> (Option<FlashView>, Option<FlashView>) {
    (None, slot)
}

/// A notification that was emitted is handed out by the next consumption,
/// and a second consumption without another emit finds nothing.
pub proof fn flash_is_shown_once(slot: Option<FlashView>, flash: FlashView)
    ensures
        ({
            let (after_first, first) = on_consume(after_emit(slot, flash));
            let (after_second, second) = on_consume(after_first);
            &&& first == Some(flash)
            &&& second is None
            &&& after_second is None
        }),
{
}

/// The place where a client's notification waits between the redirect that
/// carries it and the page that shows it.
#[derive(Debug)]
pub struct FlashSlot {
    pending: Option<FlashMessage>,
}

impl View for FlashSlot {
    type V = Option<FlashView>;

    closed spec fn view(&self) -> Option<FlashView> {
        flash_view(self.pending)
    }
}

impl FlashSlot {
    /// A slot in which nothing waits.
    pub fn new() -> (slot: FlashSlot)
        ensures
            slot@ is None,
    {
        FlashSlot { pending: None }
    }

    /// Puts a notification into the slot, in place of what waited there.
    pub fn emit(&mut self, flash: FlashMessage)
        ensures
            final(self)@ == after_emit(old(self)@, flash@),
    {
        self.pending = Some(flash);
    }

    /// Takes out what waits in the slot, and leaves the slot empty.
    pub fn consume(&mut self) -> (flash: Option<FlashMessage>)
        ensures
            (final(self)@, flash_view(flash)) == on_consume(old(self)@),
    {
        self.pending.take()
    }

    /// Whether nothing waits in the slot.
    pub fn is_empty(&self) -> (empty: bool)
        ensures
            empty == (self@ is None),
    {
        self.pending.is_none()
    }
}

} // verus!
