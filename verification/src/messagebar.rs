//! The message bar: one row that shows a message for a few seconds.

use crate::terminal::Size;
use std::time::Instant;
use vstd::prelude::*;

verus! {

/// How long a message is shown, in nanoseconds.
pub const MESSAGE_NANOS: u128 = 5_000_000_000;

/// A moment on the clock of `std::time`.
#[verifier::external_type_specification]
#[verifier::external_body]
pub struct ExInstant(Instant);

/// Reads the clock with `Instant::now`. Nothing is known of the moment that
/// comes back.
#[verifier::external_body]
fn now() -> Instant {
    Instant::now()
}

/// The nanoseconds that have gone by since `since`, by `Instant::elapsed`.
/// The clock decides, so nothing is said of the number.
#[verifier::external_body]
fn elapsed_nanos(since: &Instant) -> u128 {
    since.elapsed().as_nanos()
}

/// Whether a message that has been shown for `nanos` nanoseconds has had
/// its time: it is shown for five seconds.
pub fn expired_after(nanos: u128) -> (expired: bool)
    ensures
        expired == (nanos > MESSAGE_NANOS),
{
    nanos > MESSAGE_NANOS
}

/// A text and the moment from which it is shown.
pub struct Message {
    text: String,
    time: Instant,
}

impl Message {
    /// The text of the message.
    pub closed spec fn text(&self) -> Seq<char> {
        self.text@
    }

    /// Whether the message has had its time.
    fn is_expired(&self) -> bool {
        expired_after(elapsed_nanos(&self.time))
    }
}

impl Default for Message {
    /// An empty message, shown from now on.
    fn default() -> (message: Message)
        ensures
            message.text() == Seq::<char>::empty(),
    {
        Message { text: String::new(), time: now() }
    }
}

/// What a `MessageBar` holds, but for the moment its message was set.
pub struct MessageBarState {
    /// The message.
    pub text: Seq<char>,
    /// Whether the bar has been asked to be drawn again.
    pub needs_redraw: bool,
    /// Whether the bar has been drawn empty since its message ran out.
    pub cleared_after_expiry: bool,
}

impl MessageBarState {
    /// Whether the bar is to be drawn again, given whether its message has
    /// had its time: when it has been asked to, and once when the message
    /// runs out.
    pub open spec fn needs_redraw_when(self, expired: bool) -> bool {
        (!self.cleared_after_expiry && expired) || self.needs_redraw
    }

    /// The bar after it has been drawn, given whether its message has had
    /// its time.
    pub open spec fn drawn_when(self, expired: bool) -> MessageBarState {
        MessageBarState {
            cleared_after_expiry: self.cleared_after_expiry || expired,
            ..self
        }
    }

    /// The text that is drawn, given whether the message has had its time.
    pub open spec fn text_when(self, expired: bool) -> Seq<char> {
        if expired {
            Seq::empty()
        } else {
            self.text
        }
    }
}

/// The bar that shows messages to the user.
pub struct MessageBar {
    current_message: Message,
    needs_redraw: bool,
    cleared_after_expiry: bool,
}

impl View for MessageBar {
    type V = MessageBarState;

    closed spec fn view(&self) -> MessageBarState {
        MessageBarState {
            text: self.current_message.text@,
            needs_redraw: self.needs_redraw,
            cleared_after_expiry: self.cleared_after_expiry,
        }
    }
}

impl MessageBar {
    /// Shows a new message from now on.
    pub fn update_message(&mut self, new_message: &str)
        ensures
            final(self)@ == (MessageBarState {
                text: new_message@,
                needs_redraw: true,
                cleared_after_expiry: false,
            }),
    {
        self.current_message = Message { text: String::from_str(new_message), time: now() };
        self.cleared_after_expiry = false;
        self.set_needs_redraw(true);
    }

    /// The message of the bar, whether or not it has had its time.
    pub fn message(&self) -> (text: String)
        ensures
            text@ == self@.text,
    {
        self.current_message.text.clone()
    }

    /// Tells whether the bar is to be drawn again.
    pub fn set_needs_redraw(&mut self, needs_redraw: bool)
        ensures
            final(self)@ == (MessageBarState { needs_redraw, ..old(self)@ }),
    {
        self.needs_redraw = needs_redraw;
    }

    /// Whether the bar is to be drawn again, for a message that has or has
    /// not had its time.
    pub fn needs_redraw_when(&self, expired: bool) -> (value: bool)
        ensures
            value == self@.needs_redraw_when(expired),
    {
        (!self.cleared_after_expiry && expired) || self.needs_redraw
    }

    /// Whether the bar is to be drawn again, by the clock.
    pub fn needs_redraw(&self) -> (value: bool)
        ensures
            value == self@.needs_redraw_when(true) || value == self@.needs_redraw_when(false),
    {
        let expired = self.current_message.is_expired();
        self.needs_redraw_when(expired)
    }

    /// Gives the bar another size, which it does not keep: it is one row
    /// over the whole width.
    pub fn set_size(&mut self, size: Size)
        ensures
            final(self)@ == old(self)@,
    {
    }

    /// Gives the bar another size; it is then to be drawn again.
    pub fn resize(&mut self, size: Size)
        ensures
            final(self)@ == (MessageBarState { needs_redraw: true, ..old(self)@ }),
    {
        self.set_size(size);
        self.set_needs_redraw(true);
    }

    /// The text of the bar for a message that has or has not had its time:
    /// the message, or nothing once it has run out.
    pub fn draw_when(&mut self, expired: bool) -> (text: String)
        ensures
            final(self)@ == old(self)@.drawn_when(expired),
            text@ == old(self)@.text_when(expired),
    {
        if expired {
            self.cleared_after_expiry = true;
        }
        if expired {
            String::new()
        } else {
            self.current_message.text.clone()
        }
    }

    /// Whether the message has had its time, by the clock.
    pub fn is_expired(&self) -> bool {
        self.current_message.is_expired()
    }

    /// What is to be printed to bring the bar up to date, for a message that
    /// has or has not had its time: nothing while the bar need not be drawn
    /// again, else its text.
    pub fn render_when(&mut self, expired: bool) -> (text: Option<String>)
        ensures
            text is Some == old(self)@.needs_redraw_when(expired),
            match text {
                Some(text) => final(self)@ == old(self)@.drawn_when(expired) && text@ == old(
                    self,
                )@.text_when(expired),
                None => final(self)@ == old(self)@,
            },
    {
        if self.needs_redraw_when(expired) {
            Some(self.draw_when(expired))
        } else {
            None
        }
    }

    /// The text of the bar, by the clock.
    pub fn draw(&mut self) -> (text: String)
        ensures
            exists|expired: bool|
                final(self)@ == old(self)@.drawn_when(expired) && text@ == old(self)@.text_when(
                    expired,
                ),
    {
        let expired = self.current_message.is_expired();
        self.draw_when(expired)
    }

    /// What is to be printed to bring the bar up to date: nothing while it
    /// need not be drawn again, else its text. Once the text is on screen,
    /// `set_needs_redraw(false)` tells the bar so.
    pub fn render(&mut self) -> (text: Option<String>)
        ensures
            exists|expired: bool|
                {
                    &&& text is Some == old(self)@.needs_redraw_when(expired)
                    &&& match text {
                        Some(text) => final(self)@ == old(self)@.drawn_when(expired) && text@
                            == old(self)@.text_when(expired),
                        None => final(self)@ == old(self)@,
                    }
                },
    {
        let expired = self.current_message.is_expired();
        self.render_when(expired)
    }
}

impl Default for MessageBar {
    /// A bar without a message.
    fn default() -> (bar: MessageBar)
        ensures
            bar@ == (MessageBarState {
                text: Seq::empty(),
                needs_redraw: false,
                cleared_after_expiry: false,
            }),
    {
        MessageBar {
            current_message: Message::default(),
            needs_redraw: false,
            cleared_after_expiry: false,
        }
    }
}

} // verus!
