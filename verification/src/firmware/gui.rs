//! The GUI service's record: its canvas, the view port it draws, whether a
//! redraw was requested, and whether the service should stop.
use crate::sys;
use vstd::prelude::*;

verus! {

/// The state of the GUI service.
///
/// A view port is known to the GUI by its identity (`view_port`), as the
/// firmware knows it by its address.
pub struct GuiInner {
    canvas: sys::Canvas,
    pub thread_id: usize,
    input_channel: Option<sys::InputEvent>,
    request_redraw: bool,
    pub stop: bool,
    pub view_port: Option<u64>,
}

/// What the GUI service does in one round of its loop.
#[derive(Debug, Clone, Copy, PartialEq, Eq, Structural)]
pub struct GuiServiceStep {
    /// The view port to draw, if a redraw was requested.
    pub redraw: Option<u64>,
    /// Whether the service loop ends after this round.
    pub exit: bool,
}

impl GuiInner {
    /// Whether a redraw was requested.
    pub closed spec fn redraw_requested(&self) -> bool {
        self.request_redraw
    }

    /// The id of the thread the service runs on.
    pub closed spec fn thread(&self) -> usize {
        self.thread_id
    }

    /// Whether the service was asked to stop.
    pub closed spec fn stopped(&self) -> bool {
        self.stop
    }

    /// The identity of the registered view port, if any.
    pub closed spec fn registered_view_port(&self) -> Option<u64> {
        self.view_port
    }

    /// The canvas the service draws on.
    pub closed spec fn canvas(&self) -> sys::Canvas {
        self.canvas
    }

    /// The input event waiting for the service, if any.
    pub closed spec fn pending_input(&self) -> Option<sys::InputEvent> {
        self.input_channel
    }

    /// The record of a freshly started GUI service: no view port, nothing
    /// pending, running on thread 0 until told otherwise.
    pub fn new() -> (gui: Self)
        ensures
            gui.thread() == 0,
            gui.pending_input() is None,
            !gui.redraw_requested(),
            !gui.stopped(),
            gui.registered_view_port() is None,
            gui.canvas() == (sys::Canvas {}),
    {
        GuiInner {
            canvas: sys::Canvas {},
            thread_id: 0,
            input_channel: None,
            request_redraw: false,
            stop: false,
            view_port: None,
        }
    }

    /// Asks the service to redraw its view port.
    pub fn request_redraw(&mut self)
        ensures
            final(self).redraw_requested(),
            final(self).pending_input() == old(self).pending_input(),
            final(self).thread() == old(self).thread(),
            final(self).stopped() == old(self).stopped(),
            final(self).registered_view_port() == old(self).registered_view_port(),
            final(self).canvas() == old(self).canvas(),
    {
        self.request_redraw = true;
    }

    /// Whether a redraw was requested.
    pub fn redraw_pending(&self) -> (pending: bool)
        ensures
            pending == self.redraw_requested(),
    {
        self.request_redraw
    }

    /// Whether an input event waits for the service.
    pub fn has_pending_input(&self) -> (pending: bool)
        ensures
            pending == (self.pending_input() is Some),
    {
        self.input_channel.is_some()
    }

    /// One round of the service loop: draw the view port if a redraw was
    /// requested, and end the loop if asked to stop.
    ///
    /// The service has no input processing: a pending input event is not
    /// allowed here. A redraw needs a registered view port. The round leaves
    /// the record as it is; the redraw request stays.
    pub fn service_step(&self) -> (step: GuiServiceStep)
        requires
            self.pending_input() is None,
            self.redraw_requested() ==> self.registered_view_port() is Some,
        ensures
            step.redraw == (if self.redraw_requested() {
                self.registered_view_port()
            } else {
                None
            }),
            step.exit == self.stopped(),
    {
        let redraw = if self.request_redraw {
            self.view_port
        } else {
            None
        };
        GuiServiceStep { redraw, exit: self.stop }
    }
}

/// Add `view_port` to the view port tree, on `layer`, and request a redraw.
pub fn gui_add_view_port(gui: &mut GuiInner, view_port: u64, layer: sys::GuiLayer)
    ensures
        final(gui).registered_view_port() == Some(view_port),
        final(gui).redraw_requested(),
        final(gui).pending_input() == old(gui).pending_input(),
        final(gui).thread() == old(gui).thread(),
        final(gui).stopped() == old(gui).stopped(),
        final(gui).canvas() == old(gui).canvas(),
{
    gui.view_port = Some(view_port);
    gui.request_redraw();
}

/// Remove `view_port` from the rendering tree, and request a redraw.
pub fn gui_remove_view_port(gui: &mut GuiInner, view_port: u64)
    ensures
        final(gui).registered_view_port() is None,
        final(gui).redraw_requested(),
        final(gui).pending_input() == old(gui).pending_input(),
        final(gui).thread() == old(gui).thread(),
        final(gui).stopped() == old(gui).stopped(),
        final(gui).canvas() == old(gui).canvas(),
{
    gui.view_port = None;
    gui.request_redraw();
}

} // verus!
