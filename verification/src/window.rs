//! Per-window bridge state and the frame relay.
//!
//! Each bridged window relays frames from the render loop to the UI thread
//! through two chained frame slots: the render-loop poll stores a freshly
//! exported frame into the first slot (`next frame to render`); the
//! extraction phase carries it across the render-world boundary; the
//! post-render send phase stores it into the second, UI-visible slot
//! (`shared next frame`); and the end-of-pass reconciliation puts a carried
//! but unsent frame back into the first slot so that no frame is lost across
//! pass boundaries. Resizes re-export the render target only when the
//! computed pixel size actually changed.

use vstd::prelude::*;

use crate::config::after_command_send;
use crate::config::CommandQueue;
use crate::config::WindowCommand;
use crate::frame::compute_effective_extent;
use crate::frame::effective_extent;
use crate::frame::Extent2;
use crate::frame::FrameDescriptor;
use crate::registry::ViewRegistry;
use crate::slot::FrameSlot;

verus! {

/// Where frames stand in the relay chain of one window: the contents of the
/// two slots and the descriptor carried between extraction and send, if any.
pub struct RelayState {
    /// Contents of the first slot, written by the render-loop poll.
    pub to_render: Option<FrameDescriptor>,
    /// The descriptor carried by the extraction phase, not yet sent.
    pub in_transit: Option<FrameDescriptor>,
    /// Contents of the second, UI-visible slot.
    pub shared: Option<FrameDescriptor>,
}

/// The relay after the poll installs a freshly exported frame: it goes into
/// the first slot, superseding whatever waited there.
pub open spec fn install_step(relay: RelayState, frame: FrameDescriptor) -> RelayState {
    RelayState { to_render: Some(frame), ..relay }
}

/// The relay after the extraction phase: a pending first-slot frame is
/// carried, and the slot is drained; an empty slot carries nothing.
pub open spec fn extract_step(relay: RelayState) -> RelayState {
    if relay.to_render is Some {
        RelayState { to_render: None, in_transit: relay.to_render, shared: relay.shared }
    } else {
        relay
    }
}

/// The relay after the post-render send phase: a carried frame moves into
/// the UI-visible slot, superseding whatever waited there; when nothing is
/// carried, nothing is sent and nothing is fabricated.
pub open spec fn send_step(relay: RelayState) -> RelayState {
    if relay.in_transit is Some {
        RelayState { to_render: relay.to_render, in_transit: None, shared: relay.in_transit }
    } else {
        relay
    }
}

/// The relay after end-of-pass reconciliation: a frame still carried was not
/// sent this pass, and goes back into the first slot to be retried next
/// pass; otherwise the relay is untouched.
pub open spec fn put_back_step(relay: RelayState) -> RelayState {
    if relay.in_transit is Some {
        RelayState { to_render: relay.in_transit, in_transit: None, shared: relay.shared }
    } else {
        relay
    }
}

/// What the UI-side dequeue observes: the UI-visible slot's contents.
pub open spec fn ui_take_observation(relay: RelayState) -> Option<FrameDescriptor> {
    relay.shared
}

/// The relay after the UI-side dequeue: the UI-visible slot is drained.
pub open spec fn ui_take_step(relay: RelayState) -> RelayState {
    RelayState { shared: None, ..relay }
}

/// What one render-loop poll of the size/scale/closed reports decides.
#[derive(Clone, Copy, Debug, PartialEq, Eq, Structural)]
pub enum PollOutcome {
    /// The UI thread closed the window: remove its state; export nothing.
    Closed,
    /// Some report is still at the negative sentinel: not ready, skip.
    NotReady,
    /// The computed pixel size equals the last applied one: no new export.
    Unchanged,
    /// The pixel size changed: export a render target of the carried extent.
    Resize(Extent2),
}

/// The poll decision as a function of the last applied size and the reports.
pub open spec fn poll_decision(
    last: Extent2,
    closed: bool,
    width: int,
    height: int,
    scale_factor: int,
) -> PollOutcome {
    if closed {
        PollOutcome::Closed
    } else if width < 0 || height < 0 || scale_factor < 0 {
        PollOutcome::NotReady
    } else if effective_extent(width, height, scale_factor) == last {
        PollOutcome::Unchanged
    } else {
        PollOutcome::Resize(effective_extent(width, height, scale_factor))
    }
}

/// A camera's render target, as the bridge sees it.
#[derive(Clone, Copy, Debug, PartialEq, Eq, Structural)]
pub enum CameraTarget {
    /// The primary window of the windowing toolkit.
    PrimaryWindow,
    /// A specific, non-primary window of the windowing toolkit.
    Window(u64),
    /// A manually registered texture view, looked up by handle.
    TextureView(u32),
}

/// Where a camera aimed at the primary window renders once a bridged window
/// takes the primary's place: through the bridged render target. Any other
/// target is left alone.
pub open spec fn retarget_decision(target: CameraTarget, handle: u32) -> CameraTarget {
    if target is PrimaryWindow {
        CameraTarget::TextureView(handle)
    } else {
        target
    }
}

/// The render-thread state of one bridged window.
pub struct AdwaitaWindow {
    render_target_handle: u32,
    last_render_target_size: Extent2,
    next_frame_to_render: FrameSlot,
    shared_next_frame: FrameSlot,
    next_frame_to_send: Option<FrameDescriptor>,
    commands: CommandQueue,
}

impl AdwaitaWindow {
    /// The opaque render-target handle cameras render through.
    pub closed spec fn target_handle(&self) -> u32 {
        self.render_target_handle
    }

    /// The last pixel size a render target was exported for; zero until the
    /// first export.
    pub closed spec fn last_size(&self) -> Extent2 {
        self.last_render_target_size
    }

    /// Where this window's frames stand in the relay chain.
    pub closed spec fn relay(&self) -> RelayState {
        RelayState {
            to_render: self.next_frame_to_render.pending(),
            in_transit: self.next_frame_to_send,
            shared: self.shared_next_frame.pending(),
        }
    }

    /// The commands waiting for the UI thread, oldest first.
    pub closed spec fn waiting_commands(&self) -> Seq<WindowCommand> {
        self.commands.waiting()
    }

    /// Everything of this window but the relay chain is unchanged.
    pub open spec fn same_but_relay(&self, other: &AdwaitaWindow) -> bool {
        self.target_handle() == other.target_handle() && self.last_size() == other.last_size()
            && self.waiting_commands() == other.waiting_commands()
    }

    /// Opens a window bridge: reserves a render-target handle that collides
    /// with no handle in use, and starts with empty relay slots, no applied
    /// size, and no waiting command.
    pub fn open(views: &mut ViewRegistry) -> (window: AdwaitaWindow)
        requires
            old(views).well_formed(),
            old(views).handle_count() < u32::MAX as nat,
        ensures
            final(views).well_formed(),
            !old(views).in_use(window.target_handle()),
            forall|h: u32|
                final(views).in_use(h) <==> (old(views).in_use(h) || h
                    == window.target_handle()),
            final(views).handle_count() <= old(views).handle_count() + 1,
            window.last_size() == (Extent2 { width: 0, height: 0 }),
            window.relay() == (RelayState {
                to_render: None::<FrameDescriptor>,
                in_transit: None::<FrameDescriptor>,
                shared: None::<FrameDescriptor>,
            }),
            window.waiting_commands() == Seq::<WindowCommand>::empty(),
    {
        let handle = views.fresh_handle();
        views.insert_handle(handle);
        AdwaitaWindow {
            render_target_handle: handle,
            last_render_target_size: Extent2 { width: 0, height: 0 },
            next_frame_to_render: FrameSlot::new(),
            shared_next_frame: FrameSlot::new(),
            next_frame_to_send: None,
            commands: CommandQueue::new(),
        }
    }

    /// The opaque render-target handle cameras render through.
    pub fn render_target_handle(&self) -> (handle: u32)
        ensures
            handle == self.target_handle(),
    {
        self.render_target_handle
    }

    /// The camera target that renders through this window.
    pub fn render_target(&self) -> (target: CameraTarget)
        ensures
            target == CameraTarget::TextureView(self.target_handle()),
    {
        CameraTarget::TextureView(self.render_target_handle)
    }

    /// Points a camera rendering to the primary window at this window's
    /// render target instead; any other target is left alone.
    pub fn retarget_camera(&self, target: CameraTarget) -> (new_target: CameraTarget)
        ensures
            new_target == retarget_decision(target, self.target_handle()),
    {
        match target {
            CameraTarget::PrimaryWindow => CameraTarget::TextureView(self.render_target_handle),
            _ => target,
        }
    }

    /// One render-loop poll of the reports published by the UI thread.
    ///
    /// A closed window is to be removed. A negative report is the
    /// not-yet-reported sentinel: nothing is exported. Otherwise the
    /// effective pixel size is `max(reported, 1) * scale`, clamped into the
    /// range an extent carries and never below 1 (the exporter refuses
    /// zero-sized images); only a size differing from the last applied one
    /// asks for a new export, and is recorded as applied.
    pub fn poll(&mut self, closed: bool, width: i32, height: i32, scale_factor: i32) -> (outcome:
        PollOutcome)
        ensures
            outcome == poll_decision(
                old(self).last_size(),
                closed,
                width as int,
                height as int,
                scale_factor as int,
            ),
            outcome matches PollOutcome::Resize(extent) ==> final(self).last_size() == extent,
            !(outcome matches PollOutcome::Resize(_)) ==> final(self).last_size() == old(
                self,
            ).last_size(),
            final(self).relay() == old(self).relay(),
            final(self).target_handle() == old(self).target_handle(),
            final(self).waiting_commands() == old(self).waiting_commands(),
    {
        if closed {
            return PollOutcome::Closed;
        }
        if width < 0 || height < 0 || scale_factor < 0 {
            return PollOutcome::NotReady;
        }
        let extent = compute_effective_extent(width, height, scale_factor);
        if extent.width == self.last_render_target_size.width && extent.height
            == self.last_render_target_size.height {
            return PollOutcome::Unchanged;
        }
        self.last_render_target_size = extent;
        PollOutcome::Resize(extent)
    }

    /// Installs a freshly exported render target: registers the texture view
    /// under this window's handle (replacing the previous entry) and stores
    /// the frame descriptor, sized to the last applied size, into the first
    /// relay slot for the next pass.
    pub fn install_frame(
        &mut self,
        views: &mut ViewRegistry,
        memory_fd: i32,
        texture_view: u64,
    ) -> (frame: FrameDescriptor)
        requires
            old(views).well_formed(),
        ensures
            frame == (FrameDescriptor {
                width: old(self).last_size().width,
                height: old(self).last_size().height,
                memory_fd,
                texture_view,
            }),
            final(self).relay() == install_step(old(self).relay(), frame),
            final(self).same_but_relay(&*old(self)),
            final(views).well_formed(),
            final(views).in_use(old(self).target_handle()),
            forall|h: u32|
                final(views).in_use(h) <==> (old(views).in_use(h) || h == old(
                    self,
                ).target_handle()),
            final(views).handle_count() <= old(views).handle_count() + 1,
    {
        views.insert_handle(self.render_target_handle);
        let frame = FrameDescriptor {
            width: self.last_render_target_size.width,
            height: self.last_render_target_size.height,
            memory_fd,
            texture_view,
        };
        self.next_frame_to_render.store(frame);
        frame
    }

    /// The extraction phase: drains the first relay slot and carries its
    /// frame, if any, toward the post-render send.
    pub fn extract_next_frame(&mut self)
        ensures
            final(self).relay() == extract_step(old(self).relay()),
            final(self).same_but_relay(&*old(self)),
    {
        match self.next_frame_to_render.take() {
            Some(frame) => {
                self.next_frame_to_send = Some(frame);
            },
            None => {},
        }
    }

    /// The post-render send phase: a carried frame moves into the
    /// UI-visible slot; with nothing carried, nothing is sent.
    pub fn send_frame(&mut self)
        ensures
            final(self).relay() == send_step(old(self).relay()),
            final(self).same_but_relay(&*old(self)),
    {
        match self.next_frame_to_send {
            Some(frame) => {
                self.next_frame_to_send = None;
                self.shared_next_frame.store(frame);
            },
            None => {},
        }
    }

    /// End-of-pass reconciliation: a frame carried into extraction but not
    /// sent this pass goes back into the first slot, so the next pass
    /// retries the send and no frame is lost; nothing is ever fabricated.
    pub fn put_back_next_frame_if_not_sent(&mut self)
        ensures
            final(self).relay() == put_back_step(old(self).relay()),
            final(self).same_but_relay(&*old(self)),
    {
        match self.next_frame_to_send {
            Some(frame) => {
                self.next_frame_to_send = None;
                self.next_frame_to_render.store(frame);
            },
            None => {},
        }
    }

    /// The UI-side dequeue: removes and returns the pending shared frame, if
    /// any. Each relayed frame is retrievable exactly once.
    pub fn take_shared_frame(&mut self) -> (frame: Option<FrameDescriptor>)
        ensures
            frame == ui_take_observation(old(self).relay()),
            final(self).relay() == ui_take_step(old(self).relay()),
            final(self).same_but_relay(&*old(self)),
    {
        self.shared_next_frame.take()
    }

    /// Asks the UI thread to maximize or unmaximize the window;
    /// fire-and-forget.
    pub fn set_maximized(&mut self, maximized: bool)
        ensures
            final(self).waiting_commands() == after_command_send(
                old(self).waiting_commands(),
                WindowCommand::SetMaximized(maximized),
            ),
            final(self).relay() == old(self).relay(),
            final(self).last_size() == old(self).last_size(),
            final(self).target_handle() == old(self).target_handle(),
    {
        let _accepted = self.commands.send(WindowCommand::SetMaximized(maximized));
    }

    /// Asks the UI thread to maximize the window; fire-and-forget.
    pub fn maximize(&mut self)
        ensures
            final(self).waiting_commands() == after_command_send(
                old(self).waiting_commands(),
                WindowCommand::SetMaximized(true),
            ),
            final(self).relay() == old(self).relay(),
            final(self).last_size() == old(self).last_size(),
            final(self).target_handle() == old(self).target_handle(),
    {
        self.set_maximized(true);
    }

    /// Asks the UI thread to unmaximize the window; fire-and-forget.
    pub fn unmaximize(&mut self)
        ensures
            final(self).waiting_commands() == after_command_send(
                old(self).waiting_commands(),
                WindowCommand::SetMaximized(false),
            ),
            final(self).relay() == old(self).relay(),
            final(self).last_size() == old(self).last_size(),
            final(self).target_handle() == old(self).target_handle(),
    {
        self.set_maximized(false);
    }

    /// Asks the UI thread to enter or leave fullscreen; fire-and-forget.
    pub fn set_fullscreen(&mut self, fullscreen: bool)
        ensures
            final(self).waiting_commands() == after_command_send(
                old(self).waiting_commands(),
                WindowCommand::SetFullscreen(fullscreen),
            ),
            final(self).relay() == old(self).relay(),
            final(self).last_size() == old(self).last_size(),
            final(self).target_handle() == old(self).target_handle(),
    {
        let _accepted = self.commands.send(WindowCommand::SetFullscreen(fullscreen));
    }

    /// Asks the UI thread to enter fullscreen; fire-and-forget.
    pub fn fullscreen(&mut self)
        ensures
            final(self).waiting_commands() == after_command_send(
                old(self).waiting_commands(),
                WindowCommand::SetFullscreen(true),
            ),
            final(self).relay() == old(self).relay(),
            final(self).last_size() == old(self).last_size(),
            final(self).target_handle() == old(self).target_handle(),
    {
        self.set_fullscreen(true);
    }

    /// Asks the UI thread to leave fullscreen; fire-and-forget.
    pub fn unfullscreen(&mut self)
        ensures
            final(self).waiting_commands() == after_command_send(
                old(self).waiting_commands(),
                WindowCommand::SetFullscreen(false),
            ),
            final(self).relay() == old(self).relay(),
            final(self).last_size() == old(self).last_size(),
            final(self).target_handle() == old(self).target_handle(),
    {
        self.set_fullscreen(false);
    }

    /// Asks the UI thread to retitle the window; fire-and-forget.
    pub fn set_title(&mut self, title: String)
        ensures
            final(self).waiting_commands() == after_command_send(
                old(self).waiting_commands(),
                WindowCommand::SetTitle(title),
            ),
            final(self).relay() == old(self).relay(),
            final(self).last_size() == old(self).last_size(),
            final(self).target_handle() == old(self).target_handle(),
    {
        let _accepted = self.commands.send(WindowCommand::SetTitle(title));
    }

    /// Drains the oldest waiting command toward the UI thread, if any.
    pub fn next_command(&mut self) -> (command: Option<WindowCommand>)
        ensures
            old(self).waiting_commands().len() == 0 ==> command == Option::<WindowCommand>::None
                && final(self).waiting_commands() == old(self).waiting_commands(),
            old(self).waiting_commands().len() > 0 ==> command == Some(
                old(self).waiting_commands()[0],
            ) && final(self).waiting_commands() == old(self).waiting_commands().drop_first(),
            final(self).relay() == old(self).relay(),
            final(self).last_size() == old(self).last_size(),
            final(self).target_handle() == old(self).target_handle(),
    {
        self.commands.next_command()
    }
}

/// A resize that resolves to the pixel size already applied exports nothing:
/// after a poll applies a new effective size, any further report computing
/// the same pixel size decides `Unchanged`, so duplicate reports never
/// allocate a second render target.
pub proof fn lemma_no_reexport_on_repeated_size(
    last: Extent2,
    width1: int,
    height1: int,
    scale1: int,
    width2: int,
    height2: int,
    scale2: int,
)
    requires
        width1 >= 0,
        height1 >= 0,
        scale1 >= 0,
        width2 >= 0,
        height2 >= 0,
        scale2 >= 0,
        effective_extent(width1, height1, scale1) != last,
        effective_extent(width2, height2, scale2) == effective_extent(width1, height1, scale1),
    ensures
        poll_decision(last, false, width1, height1, scale1) == PollOutcome::Resize(
            effective_extent(width1, height1, scale1),
        ),
        poll_decision(effective_extent(width1, height1, scale1), false, width2, height2, scale2)
            == PollOutcome::Unchanged,
{
}

/// One pass delivers an installed frame end to end: the poll installs it
/// into the first slot, extraction carries it, the post-render send puts it
/// into the UI-visible slot, and the UI side retrieves exactly that frame
/// exactly once — a second dequeue observes empty.
pub proof fn lemma_pass_delivers_frame(relay: RelayState, frame: FrameDescriptor)
    ensures
        ({
            let after = send_step(extract_step(install_step(relay, frame)));
            after.shared == Some(frame) && after.to_render == None::<FrameDescriptor>
                && after.in_transit == None::<FrameDescriptor> && ui_take_observation(after)
                == Some(frame) && ui_take_observation(ui_take_step(after))
                == None::<FrameDescriptor>
        }),
{
}

/// Reconciliation never fabricates a frame: when the send phase found
/// nothing in transit, the relay is left exactly as it was.
pub proof fn lemma_reconciliation_fabricates_nothing(relay: RelayState)
    requires
        relay.in_transit == None::<FrameDescriptor>,
    ensures
        put_back_step(relay) == relay,
{
}

/// A frame carried into extraction but not sent by the end of the pass is
/// back in the first slot at the start of the next pass, where the next
/// extraction picks it up again: no frame is lost across pass boundaries.
pub proof fn lemma_unsent_frame_survives_pass(relay: RelayState, frame: FrameDescriptor)
    requires
        relay.in_transit == Some(frame),
    ensures
        put_back_step(relay).to_render == Some(frame),
        put_back_step(relay).in_transit == None::<FrameDescriptor>,
        extract_step(put_back_step(relay)).in_transit == Some(frame),
{
}

} // verus!
