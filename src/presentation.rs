//! The presentation loop: a state machine that decides, tick by tick, what
//! the caller must do with the GPU and the surface, and absorbs what came of it.
//!
//! One redraw tick runs as a short exchange: `on_redraw` hands out the first
//! action, and each report (`on_capabilities`, `on_swapchain_created`,
//! `on_acquired`, `on_flushed`) hands out the next, until an action
//! `Finished` closes the tick.
use vstd::prelude::*;

use crate::framebuffer::{build_framebuffers, is_framebuffer_set, IncompatibleFormat, RenderTarget};
use crate::surface::{chosen_format, select_surface_format, Capabilities, Extent, PixelFormat};
use crate::swapchain::{negotiate, negotiated, NegotiationError, QueueFamilies, SwapchainConfig};
use crate::sync::{FrameSync, SyncToken};

verus! {

/// Where the loop stands within a tick.
#[derive(Clone, Copy, Debug, PartialEq, Eq, Structural)]
pub enum Phase {
    /// Between ticks.
    Idle,
    /// Waiting for a fresh capability query.
    AwaitingCapabilities,
    /// Waiting for the swapchain to be built.
    AwaitingSwapchain,
    /// Waiting for the next presentable image.
    AwaitingImage,
    /// Waiting for the submission and present to be flushed; the token is taken.
    AwaitingFlush,
    /// A fatal error was reported; only `shutdown` is accepted.
    Failed,
    /// Shut down; nothing is accepted.
    Stopped,
}

/// The swapchain in use.
#[derive(Clone, Copy, Debug, PartialEq, Eq, Structural)]
pub struct ActiveSwapchain {
    pub config: SwapchainConfig,
    pub generation: u64,
    /// How many images the swapchain was built with.
    pub image_count: u32,
}

/// An image handed out by the presentation engine.
#[derive(Clone, Copy, Debug, PartialEq, Eq, Structural)]
pub struct AcquiredImage {
    pub index: u32,
    /// Usable, but the swapchain no longer matches the surface exactly.
    pub suboptimal: bool,
}

/// Why a swapchain could not be built.
#[derive(Clone, Copy, Debug, PartialEq, Eq, Structural)]
pub enum CreationFailure {
    /// The surface has no area right now; try again on a later tick.
    UnsupportedDimensions,
    /// Device lost, out of memory, or another error this loop cannot mend.
    Fatal,
}

/// Why no image could be acquired.
#[derive(Clone, Copy, Debug, PartialEq, Eq, Structural)]
pub enum AcquireFailure {
    /// The swapchain no longer matches the surface.
    OutOfDate,
    /// Device or surface lost, or another error this loop cannot mend.
    Fatal,
}

/// Why the submission and present could not be flushed.
#[derive(Clone, Copy, Debug, PartialEq, Eq, Structural)]
pub enum FlushFailure {
    /// The swapchain no longer matches the surface.
    OutOfDate,
    /// Any other failure: the frame is dropped.
    Other,
}

/// How a tick ended.
#[derive(Clone, Copy, Debug, PartialEq, Eq, Structural)]
pub enum FrameOutcome {
    Presented,
    /// The surface has no area; nothing was rebuilt or drawn.
    SkippedDegenerateSurface,
    /// The swapchain turned out to be out of date; it is rebuilt next tick.
    SkippedRecreating,
    /// The flush failed for another reason; the frame is lost.
    DroppedFrame,
}

/// What the caller must do next.
#[derive(Clone, Copy, Debug, PartialEq, Eq, Structural)]
pub enum Action {
    /// Query the surface's capabilities and report them with `on_capabilities`.
    QueryCapabilities,
    /// Build a swapchain with `config`, on top of the swapchain of generation
    /// `replaces` if there is one, and report with `on_swapchain_created`.
    CreateSwapchain { config: SwapchainConfig, replaces: Option<u64> },
    /// Acquire the next image of the swapchain of this generation, with no
    /// timeout, and report with `on_acquired`.
    AcquireImage { generation: u64 },
    /// Record a render pass into `target`; submit it after the work of
    /// `wait_on` and the acquire; present the image; ask for a completion
    /// signal, which becomes token `Pending { serial }`; flush, and report
    /// with `on_flushed`.
    RecordAndSubmit { target: RenderTarget, wait_on: SyncToken, serial: u64 },
    /// The tick is over.
    Finished(FrameOutcome),
}

/// An error that ends the session.
#[derive(Clone, Copy, Debug, PartialEq, Eq, Structural)]
pub enum LoopError {
    /// A call that the loop does not expect in its current phase.
    OutOfOrder,
    /// The surface offers no format.
    NoSurfaceFormats,
    /// The swapchain images cannot be bound to the render pass.
    IncompatibleFormat(IncompatibleFormat),
    /// The device or surface failed.
    DeviceFailure,
    /// The presentation engine handed out an index with no image behind it.
    ImageIndexOutOfRange,
    /// The generation or submission counter has reached its maximum.
    CountersExhausted,
}

/// The presentation loop's whole state.
pub struct PresentationLoop {
    pub phase: Phase,
    pub queues: QueueFamilies,
    /// The color attachment format of the render pass.
    pub attachment_format: PixelFormat,
    /// The size to ask for when the surface does not dictate one.
    pub desired_extent: Extent,
    /// The swapchain must be rebuilt before the next acquire.
    pub stale: bool,
    pub swapchain: Option<ActiveSwapchain>,
    pub framebuffers: Vec<RenderTarget>,
    pub sync: FrameSync,
    /// The configuration being built, while `AwaitingSwapchain`.
    pub pending: Option<SwapchainConfig>,
    /// The image being drawn, while `AwaitingFlush`.
    pub acquired: Option<AcquiredImage>,
    /// How many swapchains were built: the generation of the next one.
    pub generations: u64,
    /// How many submissions were made: the serial of the next one.
    pub submissions: u64,
}

impl PresentationLoop {
    pub open spec fn generation_of(&self) -> Option<u64> {
        match self.swapchain {
            Some(sc) => Some(sc.generation),
            None => None,
        }
    }

    /// The state invariant.
    pub open spec fn wf(&self) -> bool {
        // The framebuffer set is that of the current swapchain, and only that.
        &&& match self.swapchain {
            Some(sc) => {
                &&& sc.generation + 1 == self.generations
                &&& is_framebuffer_set(self.framebuffers@, sc.generation, sc.image_count as nat)
            },
            None => self.framebuffers@.len() == 0,
        }
        // The token is out of its slot exactly while a submission is composed.
        &&& (self.sync.slot is None <==> self.phase == Phase::AwaitingFlush)
        &&& (self.pending is Some <==> self.phase == Phase::AwaitingSwapchain)
        &&& (self.acquired is Some <==> self.phase == Phase::AwaitingFlush)
        &&& (self.phase == Phase::AwaitingImage ==> self.swapchain is Some)
        &&& (self.acquired matches Some(img) ==> {
            &&& self.swapchain is Some
            &&& img.index < self.framebuffers@.len()
            &&& self.submissions < u64::MAX
        })
        &&& (self.sync.slot matches Some(SyncToken::Pending { serial }) ==> serial
            < self.submissions)
    }

    /// The state of a loop that has built nothing yet.
    pub open spec fn is_fresh(
        &self,
        desired_extent: Extent,
        queues: QueueFamilies,
        attachment_format: PixelFormat,
    ) -> bool {
        &&& self.queues == queues
        &&& self.attachment_format == attachment_format
        &&& self.desired_extent == desired_extent
        &&& !self.stale
        &&& self.swapchain is None
        &&& self.framebuffers@.len() == 0
        &&& self.sync.slot == Some(SyncToken::Completed)
        &&& self.acquired is None
        &&& self.generations == 0
        &&& self.submissions == 0
    }

    fn new(desired_extent: Extent, queues: QueueFamilies, attachment_format: PixelFormat) -> (r:
        PresentationLoop)
        ensures
            r.wf(),
            r.phase == Phase::Idle,
            r.pending is None,
            r.is_fresh(desired_extent, queues, attachment_format),
    {
        PresentationLoop {
            phase: Phase::Idle,
            queues,
            attachment_format,
            desired_extent,
            stale: false,
            swapchain: None,
            framebuffers: Vec::new(),
            sync: FrameSync::completed(),
            pending: None,
            acquired: None,
            generations: 0,
            submissions: 0,
        }
    }

    /// Starts a session on a surface with capabilities `caps`, for a render
    /// pass whose color attachment has format `attachment_format`. Setup
    /// errors fail here: a surface with no format, or a chosen format that the
    /// render pass cannot draw into. Otherwise the loop asks for its first
    /// swapchain, or, if the surface has no area yet, ends this first tick and
    /// builds on the next redraw.
    pub fn initialize(
        desired_extent: Extent,
        queues: QueueFamilies,
        attachment_format: PixelFormat,
        caps: &Capabilities,
    ) -> (r: Result<(PresentationLoop, Action), LoopError>)
        ensures
            caps.supported_formats@.len() == 0 ==> r == Err::<(PresentationLoop, Action), LoopError>(
                LoopError::NoSurfaceFormats,
            ),
            caps.supported_formats@.len() > 0 && chosen_format(caps.supported_formats@)->0.format
                != attachment_format ==> r == Err::<(PresentationLoop, Action), LoopError>(
                LoopError::IncompatibleFormat(
                    IncompatibleFormat {
                        image_format: chosen_format(caps.supported_formats@)->0.format,
                        attachment_format,
                    },
                ),
            ),
            caps.supported_formats@.len() > 0 && chosen_format(caps.supported_formats@)->0.format
                == attachment_format ==> (r matches Ok((lp, action)) && {
                &&& lp.wf()
                &&& lp.is_fresh(desired_extent, queues, attachment_format)
                &&& match negotiated(*caps, desired_extent, queues) {
                    Ok(config) => {
                        &&& action == (Action::CreateSwapchain { config, replaces: None })
                        &&& lp.phase == Phase::AwaitingSwapchain
                        &&& lp.pending == Some(config)
                    },
                    Err(_) => {
                        &&& action == Action::Finished(FrameOutcome::SkippedDegenerateSurface)
                        &&& lp.phase == Phase::Idle
                        &&& lp.pending is None
                    },
                }
            }),
    {
        let format = match select_surface_format(&caps.supported_formats) {
            Some(f) => f,
            None => return Err(LoopError::NoSurfaceFormats),
        };
        if format.format != attachment_format {
            return Err(
                LoopError::IncompatibleFormat(
                    IncompatibleFormat { image_format: format.format, attachment_format },
                ),
            );
        }
        let mut lp = PresentationLoop::new(desired_extent, queues, attachment_format);
        lp.phase = Phase::AwaitingCapabilities;
        match lp.on_capabilities(caps) {
            Ok(action) => Ok((lp, action)),
            Err(e) => Err(e),
        }
    }

    /// The window was resized to `extent`: remember it and rebuild lazily,
    /// on the next redraw.
    pub fn on_resized(&mut self, extent: Extent) -> (r: Result<(), LoopError>)
        requires
            old(self).wf(),
        ensures
            final(self).wf(),
            old(self).phase == Phase::Idle ==> r is Ok && *final(self) == (PresentationLoop {
                desired_extent: extent,
                stale: true,
                ..*old(self)
            }),
            old(self).phase != Phase::Idle ==> r == Err::<(), LoopError>(LoopError::OutOfOrder)
                && *final(self) == *old(self),
    {
        if self.phase != Phase::Idle {
            return Err(LoopError::OutOfOrder);
        }
        self.desired_extent = extent;
        self.stale = true;
        Ok(())
    }

    /// Starts a redraw tick: rebuild first if the swapchain is stale or
    /// missing, else acquire an image.
    pub fn on_redraw(&mut self) -> (r: Result<Action, LoopError>)
        requires
            old(self).wf(),
        ensures
            final(self).wf(),
            old(self).phase != Phase::Idle ==> r == Err::<Action, LoopError>(LoopError::OutOfOrder)
                && *final(self) == *old(self),
            old(self).phase == Phase::Idle && (old(self).stale || old(self).swapchain is None) ==> r
                == Ok::<Action, LoopError>(Action::QueryCapabilities) && *final(self) == (
            PresentationLoop { phase: Phase::AwaitingCapabilities, ..*old(self) }),
            old(self).phase == Phase::Idle && !old(self).stale && old(self).swapchain is Some ==> r
                == Ok::<Action, LoopError>(
                Action::AcquireImage { generation: old(self).swapchain->0.generation },
            ) && *final(self) == (PresentationLoop { phase: Phase::AwaitingImage, ..*old(self) }),
    {
        if self.phase != Phase::Idle {
            return Err(LoopError::OutOfOrder);
        }
        match self.swapchain {
            Some(sc) if !self.stale => {
                self.phase = Phase::AwaitingImage;
                Ok(Action::AcquireImage { generation: sc.generation })
            },
            _ => {
                self.phase = Phase::AwaitingCapabilities;
                Ok(Action::QueryCapabilities)
            },
        }
    }

    /// Takes the capabilities queried for a rebuild and picks the new
    /// swapchain's configuration; a surface with no area skips the tick and
    /// leaves everything else as it was.
    pub fn on_capabilities(&mut self, caps: &Capabilities) -> (r: Result<Action, LoopError>)
        requires
            old(self).wf(),
        ensures
            final(self).wf(),
            old(self).phase != Phase::AwaitingCapabilities ==> r == Err::<Action, LoopError>(
                LoopError::OutOfOrder,
            ) && *final(self) == *old(self),
            old(self).phase == Phase::AwaitingCapabilities ==> match negotiated(
                *caps,
                old(self).desired_extent,
                old(self).queues,
            ) {
                Ok(config) => r == Ok::<Action, LoopError>(
                    Action::CreateSwapchain { config, replaces: old(self).generation_of() },
                ) && *final(self) == (PresentationLoop {
                    phase: Phase::AwaitingSwapchain,
                    pending: Some(config),
                    ..*old(self)
                }),
                Err(NegotiationError::UnsupportedDimensions) => r == Ok::<Action, LoopError>(
                    Action::Finished(FrameOutcome::SkippedDegenerateSurface),
                ) && *final(self) == (PresentationLoop { phase: Phase::Idle, ..*old(self) }),
                Err(NegotiationError::NoSurfaceFormats) => r == Err::<Action, LoopError>(
                    LoopError::NoSurfaceFormats,
                ) && *final(self) == (PresentationLoop { phase: Phase::Failed, ..*old(self) }),
            },
    {
        if self.phase != Phase::AwaitingCapabilities {
            return Err(LoopError::OutOfOrder);
        }
        match negotiate(caps, self.desired_extent, self.queues) {
            Ok(config) => {
                let replaces = match self.swapchain {
                    Some(sc) => Some(sc.generation),
                    None => None,
                };
                self.pending = Some(config);
                self.phase = Phase::AwaitingSwapchain;
                Ok(Action::CreateSwapchain { config, replaces })
            },
            Err(NegotiationError::UnsupportedDimensions) => {
                self.phase = Phase::Idle;
                Ok(Action::Finished(FrameOutcome::SkippedDegenerateSurface))
            },
            Err(NegotiationError::NoSurfaceFormats) => {
                self.phase = Phase::Failed;
                Err(LoopError::NoSurfaceFormats)
            },
        }
    }

    /// Takes the outcome of building the swapchain (its number of images on
    /// success). On success the old swapchain and its whole framebuffer set
    /// are replaced by a new generation, and the tick goes on to acquire.
    /// The images' format is checked against the render pass once more:
    /// `initialize` checked the format chosen then, so a mismatch here means
    /// that the surface's formats changed since.
    pub fn on_swapchain_created(&mut self, result: Result<u32, CreationFailure>) -> (r: Result<
        Action,
        LoopError,
    >)
        requires
            old(self).wf(),
        ensures
            final(self).wf(),
            old(self).phase != Phase::AwaitingSwapchain ==> r == Err::<Action, LoopError>(
                LoopError::OutOfOrder,
            ) && *final(self) == *old(self),
            old(self).phase == Phase::AwaitingSwapchain ==> {
                let config = old(self).pending->0;
                match result {
                    Err(CreationFailure::UnsupportedDimensions) => r == Ok::<Action, LoopError>(
                        Action::Finished(FrameOutcome::SkippedDegenerateSurface),
                    ) && *final(self) == (PresentationLoop {
                        phase: Phase::Idle,
                        pending: None,
                        ..*old(self)
                    }),
                    Err(CreationFailure::Fatal) => r == Err::<Action, LoopError>(
                        LoopError::DeviceFailure,
                    ) && *final(self) == (PresentationLoop {
                        phase: Phase::Failed,
                        pending: None,
                        ..*old(self)
                    }),
                    Ok(count) => if old(self).generations == u64::MAX {
                        r == Err::<Action, LoopError>(LoopError::CountersExhausted) && *final(self)
                            == (PresentationLoop {
                            phase: Phase::Failed,
                            pending: None,
                            ..*old(self)
                        })
                    } else if config.format.format != old(self).attachment_format {
                        r == Err::<Action, LoopError>(
                            LoopError::IncompatibleFormat(
                                IncompatibleFormat {
                                    image_format: config.format.format,
                                    attachment_format: old(self).attachment_format,
                                },
                            ),
                        ) && *final(self) == (PresentationLoop {
                            phase: Phase::Failed,
                            pending: None,
                            ..*old(self)
                        })
                    } else {
                        &&& r == Ok::<Action, LoopError>(
                            Action::AcquireImage { generation: old(self).generations },
                        )
                        &&& is_framebuffer_set(
                            final(self).framebuffers@,
                            old(self).generations,
                            count as nat,
                        )
                        &&& *final(self) == (PresentationLoop {
                            phase: Phase::AwaitingImage,
                            stale: false,
                            swapchain: Some(
                                ActiveSwapchain {
                                    config,
                                    generation: old(self).generations,
                                    image_count: count,
                                },
                            ),
                            framebuffers: final(self).framebuffers,
                            pending: None,
                            generations: (old(self).generations + 1) as u64,
                            ..*old(self)
                        })
                    },
                }
            },
    {
        if self.phase != Phase::AwaitingSwapchain {
            return Err(LoopError::OutOfOrder);
        }
        let config = match self.pending {
            Some(c) => c,
            None => return Err(LoopError::OutOfOrder),
        };
        match result {
            Err(CreationFailure::UnsupportedDimensions) => {
                self.pending = None;
                self.phase = Phase::Idle;
                Ok(Action::Finished(FrameOutcome::SkippedDegenerateSurface))
            },
            Err(CreationFailure::Fatal) => {
                self.pending = None;
                self.phase = Phase::Failed;
                Err(LoopError::DeviceFailure)
            },
            Ok(count) => {
                if self.generations == u64::MAX {
                    self.pending = None;
                    self.phase = Phase::Failed;
                    return Err(LoopError::CountersExhausted);
                }
                let generation = self.generations;
                match build_framebuffers(
                    generation,
                    count,
                    config.format.format,
                    self.attachment_format,
                ) {
                    Err(e) => {
                        self.pending = None;
                        self.phase = Phase::Failed;
                        Err(LoopError::IncompatibleFormat(e))
                    },
                    Ok(targets) => {
                        self.swapchain = Some(
                            ActiveSwapchain { config, generation, image_count: count },
                        );
                        self.framebuffers = targets;
                        self.generations = generation + 1;
                        self.stale = false;
                        self.pending = None;
                        self.phase = Phase::AwaitingImage;
                        Ok(Action::AcquireImage { generation })
                    },
                }
            },
        }
    }

    /// Takes the outcome of acquiring an image. An out-of-date swapchain ends
    /// the tick with the token untouched; a usable image takes the token and
    /// hands it, with the image's render target, to the submission.
    pub fn on_acquired(&mut self, result: Result<AcquiredImage, AcquireFailure>) -> (r: Result<
        Action,
        LoopError,
    >)
        requires
            old(self).wf(),
        ensures
            final(self).wf(),
            old(self).phase != Phase::AwaitingImage ==> r == Err::<Action, LoopError>(
                LoopError::OutOfOrder,
            ) && *final(self) == *old(self),
            r matches Ok(Action::RecordAndSubmit { target, wait_on, .. }) ==> {
                &&& old(self).sync.slot == Some(wait_on)
                &&& final(self).sync.slot is None
                &&& old(self).swapchain matches Some(sc) && target.generation == sc.generation
                &&& result matches Ok(img) && target.image_index == img.index
            },
            old(self).phase == Phase::AwaitingImage ==> match result {
                Err(AcquireFailure::OutOfDate) => r == Ok::<Action, LoopError>(
                    Action::Finished(FrameOutcome::SkippedRecreating),
                ) && *final(self) == (PresentationLoop {
                    phase: Phase::Idle,
                    stale: true,
                    ..*old(self)
                }),
                Err(AcquireFailure::Fatal) => r == Err::<Action, LoopError>(
                    LoopError::DeviceFailure,
                ) && *final(self) == (PresentationLoop { phase: Phase::Failed, ..*old(self) }),
                Ok(img) => if img.index >= old(self).framebuffers@.len() {
                    r == Err::<Action, LoopError>(LoopError::ImageIndexOutOfRange) && *final(self)
                        == (PresentationLoop { phase: Phase::Failed, ..*old(self) })
                } else if old(self).submissions == u64::MAX {
                    r == Err::<Action, LoopError>(LoopError::CountersExhausted) && *final(self) == (
                    PresentationLoop { phase: Phase::Failed, ..*old(self) })
                } else {
                    r == Ok::<Action, LoopError>(
                        Action::RecordAndSubmit {
                            target: old(self).framebuffers@[img.index as int],
                            wait_on: old(self).sync.slot->0,
                            serial: old(self).submissions,
                        },
                    ) && *final(self) == (PresentationLoop {
                        phase: Phase::AwaitingFlush,
                        stale: old(self).stale || img.suboptimal,
                        sync: FrameSync { slot: None },
                        acquired: Some(img),
                        ..*old(self)
                    })
                },
            },
    {
        if self.phase != Phase::AwaitingImage {
            return Err(LoopError::OutOfOrder);
        }
        match result {
            Err(AcquireFailure::OutOfDate) => {
                self.stale = true;
                self.phase = Phase::Idle;
                Ok(Action::Finished(FrameOutcome::SkippedRecreating))
            },
            Err(AcquireFailure::Fatal) => {
                self.phase = Phase::Failed;
                Err(LoopError::DeviceFailure)
            },
            Ok(img) => {
                if img.index as usize >= self.framebuffers.len() {
                    self.phase = Phase::Failed;
                    return Err(LoopError::ImageIndexOutOfRange);
                }
                if self.submissions == u64::MAX {
                    self.phase = Phase::Failed;
                    return Err(LoopError::CountersExhausted);
                }
                let target = self.framebuffers[img.index as usize];
                let wait_on = match self.sync.take() {
                    Some(t) => t,
                    None => {
                        self.phase = Phase::Failed;
                        return Err(LoopError::OutOfOrder);
                    },
                };
                if img.suboptimal {
                    self.stale = true;
                }
                self.acquired = Some(img);
                self.phase = Phase::AwaitingFlush;
                Ok(Action::RecordAndSubmit { target, wait_on, serial: self.submissions })
            },
        }
    }

    /// Takes the outcome of flushing the submission and present, and stores
    /// the token the next frame waits on: the new completion signal, or a
    /// completed one when the flush failed.
    pub fn on_flushed(&mut self, result: Result<(), FlushFailure>) -> (r: Result<
        Action,
        LoopError,
    >)
        requires
            old(self).wf(),
        ensures
            final(self).wf(),
            old(self).phase != Phase::AwaitingFlush ==> r == Err::<Action, LoopError>(
                LoopError::OutOfOrder,
            ) && *final(self) == *old(self),
            old(self).phase == Phase::AwaitingFlush ==> {
                let serial = old(self).submissions;
                let done = PresentationLoop {
                    phase: Phase::Idle,
                    acquired: None,
                    submissions: (serial + 1) as u64,
                    ..*old(self)
                };
                match result {
                    Ok(()) => r == Ok::<Action, LoopError>(
                        Action::Finished(FrameOutcome::Presented),
                    ) && *final(self) == (PresentationLoop {
                        sync: FrameSync { slot: Some(SyncToken::Pending { serial }) },
                        ..done
                    }),
                    Err(FlushFailure::OutOfDate) => r == Ok::<Action, LoopError>(
                        Action::Finished(FrameOutcome::SkippedRecreating),
                    ) && *final(self) == (PresentationLoop {
                        sync: FrameSync { slot: Some(SyncToken::Completed) },
                        stale: true,
                        ..done
                    }),
                    Err(FlushFailure::Other) => r == Ok::<Action, LoopError>(
                        Action::Finished(FrameOutcome::DroppedFrame),
                    ) && *final(self) == (PresentationLoop {
                        sync: FrameSync { slot: Some(SyncToken::Completed) },
                        ..done
                    }),
                }
            },
    {
        if self.phase != Phase::AwaitingFlush {
            return Err(LoopError::OutOfOrder);
        }
        let serial = self.submissions;
        self.submissions = serial + 1;
        self.acquired = None;
        self.phase = Phase::Idle;
        match result {
            Ok(()) => {
                self.sync.put(SyncToken::Pending { serial });
                Ok(Action::Finished(FrameOutcome::Presented))
            },
            Err(FlushFailure::OutOfDate) => {
                self.sync.put(SyncToken::Completed);
                self.stale = true;
                Ok(Action::Finished(FrameOutcome::SkippedRecreating))
            },
            Err(FlushFailure::Other) => {
                self.sync.put(SyncToken::Completed);
                Ok(Action::Finished(FrameOutcome::DroppedFrame))
            },
        }
    }

    /// Ends the session: hands back the token to wait on before the GPU
    /// resources go, and drops the swapchain and its framebuffer set.
    /// Accepted only between ticks, or after a fatal error.
    pub fn shutdown(&mut self) -> (r: Result<SyncToken, LoopError>)
        requires
            old(self).wf(),
        ensures
            final(self).wf(),
            old(self).phase != Phase::Idle && old(self).phase != Phase::Failed ==> r
                == Err::<SyncToken, LoopError>(LoopError::OutOfOrder) && *final(self)
                == *old(self),
            old(self).phase == Phase::Idle || old(self).phase == Phase::Failed ==> {
                &&& r == Ok::<SyncToken, LoopError>(old(self).sync.slot->0)
                &&& final(self).framebuffers@.len() == 0
                &&& *final(self) == (PresentationLoop {
                    phase: Phase::Stopped,
                    swapchain: None,
                    framebuffers: final(self).framebuffers,
                    sync: FrameSync { slot: Some(SyncToken::Completed) },
                    ..*old(self)
                })
            },
    {
        if self.phase != Phase::Idle && self.phase != Phase::Failed {
            return Err(LoopError::OutOfOrder);
        }
        let token = match self.sync.take() {
            Some(t) => t,
            None => return Err(LoopError::OutOfOrder),
        };
        self.sync.put(SyncToken::Completed);
        self.swapchain = None;
        self.framebuffers = Vec::new();
        self.phase = Phase::Stopped;
        Ok(token)
    }
}

/// Generation consistency: whenever a swapchain is in use, the framebuffer set
/// has one render target per swapchain image, every target belongs to that
/// swapchain's generation, and that generation is the newest one built.
pub proof fn lemma_generation_consistency(s: PresentationLoop, i: int)
    requires
        s.wf(),
        s.swapchain is Some,
        0 <= i < s.framebuffers@.len(),
    ensures
        s.framebuffers@.len() == s.swapchain->0.image_count,
        s.framebuffers@[i].generation == s.swapchain->0.generation,
        s.framebuffers@[i].image_index == i,
        s.swapchain->0.generation + 1 == s.generations,
{
    assert(s.framebuffers@[i] == (RenderTarget {
        generation: s.swapchain->0.generation,
        image_index: i as u32,
    }));
}

/// Single token ownership: the token is out of its slot exactly while a
/// submission is being composed, so it is held whenever an image can be
/// acquired and is not held again until the flush is reported.
pub proof fn lemma_single_token_ownership(s: PresentationLoop)
    requires
        s.wf(),
    ensures
        s.phase == Phase::AwaitingImage ==> s.sync.slot is Some,
        s.sync.slot is None <==> s.phase == Phase::AwaitingFlush,
{
}

} // verus!
