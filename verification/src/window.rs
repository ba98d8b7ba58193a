//! The surface the engine draws to, and the device that comes with it.

use vstd::prelude::*;
use vstd::string::StringExecFns;
use crate::device::{calls_of, Call, Command, Device};

verus! {

/// The engine's picture of its window: title, size, whether it has been
/// asked to close, and the device of its graphics context. The host owns
/// the native window and keeps it in step by carrying out the commands.
pub struct Window {
    title: String,
    width: u32,
    height: u32,
    should_close: bool,
    device: Device,
}

impl Window {
    /// The window's title.
    pub closed spec fn spec_title(&self) -> Seq<char> {
        self.title@
    }

    /// The window's width in pixels.
    pub closed spec fn spec_width(&self) -> u32 {
        self.width
    }

    /// The window's height in pixels.
    pub closed spec fn spec_height(&self) -> u32 {
        self.height
    }

    /// Whether the window has been asked to close.
    pub closed spec fn spec_should_close(&self) -> bool {
        self.should_close
    }

    /// The device of the window's graphics context.
    pub closed spec fn spec_device(&self) -> Device {
        self.device
    }

    /// `after` is this window with `calls` issued on its device and nothing
    /// else changed.
    pub open spec fn issues(&self, after: Window, calls: Seq<Call>) -> bool {
        &&& after.spec_title() == self.spec_title()
        &&& after.spec_width() == self.spec_width()
        &&& after.spec_height() == self.spec_height()
        &&& after.spec_should_close() == self.spec_should_close()
        &&& self.spec_device().issues(after.spec_device(), calls)
        &&& after.spec_device().next_id() == self.spec_device().next_id()
    }

    /// Issuing `calls` and then `more` is issuing `calls + more`.
    pub proof fn lemma_issues_more(&self, mid: Window, after: Window, calls: Seq<Call>, more: Seq<Call>)
        requires
            self.issues(mid, calls),
            mid.issues(after, more),
        ensures
            self.issues(after, calls + more),
    {
        self.spec_device().lemma_issues_more(mid.spec_device(), after.spec_device(), calls, more);
    }

    /// The calls that clear the surface to a colour.
    pub open spec fn clear_calls(red: u32, green: u32, blue: u32, alpha: u32) -> Seq<Call> {
        seq![Call::ClearColor { red, green, blue, alpha }, Call::Clear]
    }

    /// The calls that show the frame and collect input.
    pub open spec fn update_calls() -> Seq<Call> {
        seq![Call::SwapBuffers, Call::PollEvents]
    }

    /// A window that is not asked to close, with a device on which nothing
    /// has been issued.
    pub fn new(title: &str, width: u32, height: u32) -> (window: Window)
        ensures
            window.spec_title() == title@,
            window.spec_width() == width,
            window.spec_height() == height,
            !window.spec_should_close(),
            window.spec_device().issued() == Seq::<Call>::empty(),
            window.spec_device().pending() == Seq::<Call>::empty(),
            window.spec_device().next_id() == 1,
    {
        Window {
            title: String::from_str(title),
            width,
            height,
            should_close: false,
            device: Device::new(),
        }
    }

    /// Shows the finished frame and collects input: swaps the buffers, then
    /// polls for events.
    pub fn update(&mut self)
        ensures
            old(self).issues(*final(self), Self::update_calls()),
    {
        let ghost d0 = self.device;
        let ghost calls = Self::update_calls();
        self.device.issue(Command::SwapBuffers);
        let ghost d1 = self.device;
        self.device.issue(Command::PollEvents);
        proof {
            d0.lemma_issues_none(calls);
            d0.lemma_issues_next(d0, d1, calls, 0);
            d0.lemma_issues_next(d1, self.device, calls, 1);
            assert(calls.take(2) =~= calls);
        }
    }

    /// Clears the surface to the colour given by the bit patterns of its
    /// four components.
    pub fn clear(&mut self, red: u32, green: u32, blue: u32, alpha: u32)
        ensures
            old(self).issues(*final(self), Self::clear_calls(red, green, blue, alpha)),
    {
        let ghost d0 = self.device;
        let ghost calls = Self::clear_calls(red, green, blue, alpha);
        self.device.issue(Command::ClearColor { red, green, blue, alpha });
        let ghost d1 = self.device;
        self.device.issue(Command::Clear);
        proof {
            d0.lemma_issues_none(calls);
            d0.lemma_issues_next(d0, d1, calls, 0);
            d0.lemma_issues_next(d1, self.device, calls, 1);
            assert(calls.take(2) =~= calls);
        }
    }

    /// The window's title.
    pub fn get_title(&self) -> (title: &str)
        ensures
            title@ == self.spec_title(),
    {
        self.title.as_str()
    }

    /// Gives the window a new title.
    pub fn set_title(&mut self, title: &str)
        ensures
            final(self).spec_title() == title@,
            final(self).spec_width() == old(self).spec_width(),
            final(self).spec_height() == old(self).spec_height(),
            final(self).spec_should_close() == old(self).spec_should_close(),
            old(self).spec_device().issues(
                final(self).spec_device(),
                seq![Call::SetTitle { title: title@ }],
            ),
            final(self).spec_device().next_id() == old(self).spec_device().next_id(),
    {
        self.title = String::from_str(title);
        self.device.issue(Command::SetTitle { title: String::from_str(title) });
    }

    /// The window's width in pixels.
    #[verifier::when_used_as_spec(spec_width)]
    pub fn width(&self) -> (width: u32)
        ensures
            width == self.spec_width(),
    {
        self.width
    }

    /// The window's height in pixels.
    #[verifier::when_used_as_spec(spec_height)]
    pub fn height(&self) -> (height: u32)
        ensures
            height == self.spec_height(),
    {
        self.height
    }

    /// Whether the window has been asked to close.
    #[verifier::when_used_as_spec(spec_should_close)]
    pub fn should_close(&self) -> (should_close: bool)
        ensures
            should_close == self.spec_should_close(),
    {
        self.should_close
    }

    /// Asks the window to close, or takes the request back.
    pub fn set_should_close(&mut self, value: bool)
        ensures
            final(self).spec_should_close() == value,
            final(self).spec_title() == old(self).spec_title(),
            final(self).spec_width() == old(self).spec_width(),
            final(self).spec_height() == old(self).spec_height(),
            old(self).spec_device().issues(
                final(self).spec_device(),
                seq![Call::SetShouldClose { value }],
            ),
            final(self).spec_device().next_id() == old(self).spec_device().next_id(),
    {
        self.should_close = value;
        self.device.issue(Command::SetShouldClose { value });
    }

    /// Takes note of what the host found after polling: whether the native
    /// window has been asked to close.
    pub fn observe_should_close(&mut self, value: bool)
        ensures
            final(self).spec_should_close() == value,
            final(self).spec_title() == old(self).spec_title(),
            final(self).spec_width() == old(self).spec_width(),
            final(self).spec_height() == old(self).spec_height(),
            final(self).spec_device() == old(self).spec_device(),
    {
        self.should_close = value;
    }

    /// The device of the window's graphics context.
    pub fn device(&self) -> (device: &Device)
        ensures
            *device == self.spec_device(),
    {
        &self.device
    }

    /// The device of the window's graphics context, to issue commands to.
    pub fn device_mut(&mut self) -> (device: &mut Device)
        ensures
            *device == old(self).spec_device(),
            final(self).spec_device() == *final(device),
            final(self).spec_title() == old(self).spec_title(),
            final(self).spec_width() == old(self).spec_width(),
            final(self).spec_height() == old(self).spec_height(),
            final(self).spec_should_close() == old(self).spec_should_close(),
    {
        &mut self.device
    }

    /// Hands the pending commands to the host, in the order they were issued.
    pub fn take_commands(&mut self) -> (commands: Vec<Command>)
        ensures
            calls_of(commands@) == old(self).spec_device().pending(),
            final(self).spec_device().pending() == Seq::<Call>::empty(),
            final(self).spec_device().issued() == old(self).spec_device().issued(),
            final(self).spec_device().next_id() == old(self).spec_device().next_id(),
            final(self).spec_title() == old(self).spec_title(),
            final(self).spec_width() == old(self).spec_width(),
            final(self).spec_height() == old(self).spec_height(),
            final(self).spec_should_close() == old(self).spec_should_close(),
    {
        self.device.take_commands()
    }
}

} // verus!
