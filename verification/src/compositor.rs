//! The frame compositor: what the GPU is asked to do, and in which order.
//!
//! The compositor never touches the GPU. It is told what happened there, one
//! event at a time, and answers each event with the actions to take next.

use vstd::prelude::*;
use crate::mesh::{checked_attribute_count_of, AttributeCount, Mesh, Tally};
use crate::mouse::Interaction;

verus! {

/// The pixel formats of `wgpu`, carried from the settings to the presentation
/// chain and never looked into.
#[verifier::external_type_specification]
#[verifier::external_body]
pub struct ExTextureFormat(wgpu::TextureFormat);

/// The antialiasing strategies of `iced_graphics`. The compositor only asks
/// whether there is one.
#[verifier::external_type_specification]
#[verifier::external_body]
pub struct ExAntialiasing(iced_graphics::Antialiasing);

/// What a compositor is made with.
#[derive(Clone, Copy, Debug, PartialEq, Eq)]
pub struct Settings {
    /// The format of the images to present.
    pub format: wgpu::TextureFormat,
    /// The antialiasing to use, if any.
    pub antialiasing: Option<iced_graphics::Antialiasing>,
}

/// Which adapter to prefer where the machine has several.
#[derive(Clone, Copy, Debug, PartialEq, Eq, Structural)]
pub enum PowerPreference {
    /// The one that draws the least power.
    LowPower,
    /// The fastest one.
    HighPerformance,
}

/// What is asked of an adapter.
#[derive(Clone, Copy, Debug, PartialEq, Eq, Structural)]
pub struct AdapterOptions {
    pub power_preference: PowerPreference,
    /// Whether the adapter has to suit a surface that exists already.
    pub compatible_surface: bool,
}

/// What is asked of a logical device.
#[derive(Clone, Copy, Debug, PartialEq, Eq, Structural)]
pub struct DeviceDescriptor {
    pub anisotropic_filtering: bool,
    pub max_bind_groups: u32,
}

/// How images are handed to the screen.
#[derive(Clone, Copy, Debug, PartialEq, Eq, Structural)]
pub enum PresentMode {
    Immediate,
    Mailbox,
    Fifo,
}

/// A width and a height in pixels.
#[derive(Clone, Copy, Debug, PartialEq, Eq, Structural)]
pub struct Extent {
    pub width: u32,
    pub height: u32,
}

/// What a presentation chain is made with.
#[derive(Clone, Copy, Debug, PartialEq, Eq)]
pub struct SwapChainDescriptor {
    pub format: wgpu::TextureFormat,
    pub width: u32,
    pub height: u32,
    pub present_mode: PresentMode,
}

/// A colour, one byte to a channel.
#[derive(Clone, Copy, Debug, PartialEq, Eq, Structural)]
pub struct Color {
    pub r: u8,
    pub g: u8,
    pub b: u8,
    pub a: u8,
}

/// The render pass that opens a frame.
#[derive(Clone, Copy, Debug, PartialEq, Eq, Structural)]
pub struct ClearPass {
    /// The colour that the image is cleared to.
    pub clear_color: Color,
    /// Whether the pass has a depth and stencil attachment.
    pub depth_stencil: bool,
}

/// What a frame holds, as far as the compositor needs to know: how much
/// geometry the buffers have to take, and how many lines of overlay text.
#[derive(Clone, Copy, Debug, PartialEq, Eq, Structural)]
pub struct Scene {
    pub geometry: AttributeCount,
    pub overlay_lines: usize,
}

impl Scene {
    /// Whether the scene holds nothing to draw: no mesh and no overlay text.
    pub open spec fn nothing_to_draw(self) -> bool {
        self.geometry.solids == 0 && self.geometry.gradients == 0 && self.overlay_lines == 0
    }

    /// Returns the scene of `meshes` under `overlay_lines` lines of text,
    /// unless the meshes hold more than can be counted.
    pub fn of(meshes: &[Mesh], overlay_lines: usize) -> (scene: Option<Scene>)
        ensures
            scene is Some <==> Tally::sum(meshes@).fits(),
            scene matches Some(s) ==> s.geometry@ == Tally::sum(meshes@) && s.overlay_lines
                == overlay_lines,
    {
        match checked_attribute_count_of(meshes) {
            Some(geometry) => Some(Scene { geometry, overlay_lines }),
            None => None,
        }
    }

    /// Returns whether the scene holds nothing to draw.
    pub fn is_empty(&self) -> (empty: bool)
        ensures
            empty == self.nothing_to_draw(),
    {
        self.geometry.is_empty() && self.overlay_lines == 0
    }
}

/// A failure after which nothing more can be rendered.
#[derive(Clone, Copy, Debug, PartialEq, Eq, Structural)]
pub enum Fatal {
    /// The platform has no adapter to offer.
    NoAdapter,
    /// The adapter gave no device.
    NoDevice,
    /// The presentation chain gave no image.
    NoImage,
}

/// Where the compositor stands.
#[derive(Clone, Copy, Debug, PartialEq, Eq, Structural)]
pub enum Phase {
    /// Nothing has been asked of the platform yet.
    Uninitialized,
    /// An adapter has been asked for.
    AwaitingAdapter,
    /// A device has been asked for.
    AwaitingDevice,
    /// Device and queue are there; no frame is under way.
    Ready,
    /// A frame is under way: its image has been asked for.
    Acquiring { scene: Scene },
    /// A frame is under way: the backend records its geometry.
    Rendering,
    /// A fatal failure has happened.
    Failed { fatal: Fatal },
}

/// What the platform, the GPU or the host reports to the compositor.
#[derive(Clone, Copy, Debug, PartialEq, Eq, Structural)]
pub enum Event {
    /// The host starts the compositor.
    Started,
    /// The platform offered an adapter.
    AdapterFound,
    /// The platform has no adapter.
    AdapterMissing,
    /// The adapter gave a device and its queue.
    DeviceReady,
    /// The adapter gave no device.
    DeviceMissing,
    /// The window has a new size in pixels, or has a size for the first
    /// time.
    Resized { width: u32, height: u32 },
    /// The host wants `scene` on the screen.
    DrawRequested { scene: Scene },
    /// The presentation chain gave its next image.
    ImageAcquired,
    /// The presentation chain gave no image.
    ImageUnavailable,
    /// The backend has recorded the frame's geometry; `interaction` is what
    /// the pointer should look like.
    Rendered { interaction: Interaction },
}

/// What the compositor asks the host to do.
#[derive(Clone, Copy, Debug, PartialEq, Eq)]
#[allow(inconsistent_fields)]
pub enum Action {
    RequestAdapter { options: AdapterOptions },
    RequestDevice { descriptor: DeviceDescriptor },
    /// Make a presentation chain for the surface, in place of the one that
    /// there is, if any.
    CreateSwapChain { descriptor: SwapChainDescriptor },
    /// Take the next image of the presentation chain.
    AcquireImage,
    /// Open the command recording of the frame.
    BeginRecording,
    /// Run a render pass on the acquired image that clears it.
    Clear { pass: ClearPass },
    /// Have the backend size its buffers for `scene`, upload the geometry and
    /// record the draw calls.
    Render { scene: Scene },
    /// Close the command recording.
    FinishRecording,
    /// Hand the recorded commands to the queue.
    Submit,
    /// Hand the acquired image to the screen.
    Present,
    /// Tell the window system what the pointer should look like.
    Report { interaction: Interaction },
    /// Give up: nothing more can be rendered.
    Abort { fatal: Fatal },
}

/// Why an event was not acted upon.
#[derive(Clone, Copy, Debug, PartialEq, Eq, Structural)]
pub enum Rejected {
    /// The compositor has failed for good.
    Halted { fatal: Fatal },
    /// The event cannot happen where the compositor stands.
    OutOfTurn,
}

/// All that a compositor knows.
#[derive(Clone, Copy, Debug, PartialEq, Eq)]
pub struct State {
    pub settings: Settings,
    pub phase: Phase,
    /// The size of the window, once it is known.
    pub surface: Option<Extent>,
    /// The size that the live presentation chain was made for, once there
    /// is one.
    pub chain: Option<Extent>,
}

/// The background that every frame starts from.
pub open spec fn white() -> Color {
    Color { r: 255, g: 255, b: 255, a: 255 }
}

/// The adapter to ask for: the fastest one where antialiasing is wanted, the
/// one that draws the least power otherwise; no surface has to exist yet.
pub open spec fn adapter_options_for(settings: Settings) -> AdapterOptions {
    AdapterOptions {
        power_preference: if settings.antialiasing is None {
            PowerPreference::LowPower
        } else {
            PowerPreference::HighPerformance
        },
        compatible_surface: false,
    }
}

/// The device to ask for.
pub open spec fn device_descriptor() -> DeviceDescriptor {
    DeviceDescriptor { anisotropic_filtering: false, max_bind_groups: 2 }
}

/// The presentation chain for a window of the given size.
pub open spec fn swap_chain_for(format: wgpu::TextureFormat, size: Extent) -> SwapChainDescriptor {
    SwapChainDescriptor {
        format,
        width: size.width,
        height: size.height,
        present_mode: PresentMode::Mailbox,
    }
}

/// The pass that opens every frame: clear to white, no depth or stencil.
pub open spec fn clear_pass() -> ClearPass {
    ClearPass { clear_color: white(), depth_stencil: false }
}

impl State {
    /// The state that a compositor starts in.
    pub open spec fn initial(settings: Settings) -> State {
        State { settings, phase: Phase::Uninitialized, surface: None, chain: None }
    }

    /// Whether the live presentation chain was made for the window as it is
    /// now.
    pub open spec fn chain_is_current(self) -> bool {
        self.surface is Some && self.chain == self.surface
    }

    /// Whether the state is one that a compositor can be in: a presentation
    /// chain needs a device to be made with and a window to be made for, and
    /// a frame is only ever under way on a presentation chain.
    pub open spec fn well_formed(self) -> bool {
        &&& self.chain is Some ==> self.surface is Some
        &&& self.chain is Some ==> self.phase is Ready || self.phase is Acquiring
            || self.phase is Rendering || self.phase is Failed
        &&& self.phase is Acquiring || self.phase is Rendering ==> self.chain is Some
    }

    /// The state with the window's size noted, the phase as it is.
    pub open spec fn with_surface(self, size: Extent) -> State {
        State { surface: Some(size), ..self }
    }

    /// The state in another phase.
    pub open spec fn in_phase(self, phase: Phase) -> State {
        State { phase, ..self }
    }

    /// What `event` leads to: the state after it and the actions to take, in
    /// their order; or why the event is not acted upon, in which case the
    /// state stays as it is.
    pub open spec fn next(self, event: Event) -> Result<(State, Seq<Action>), Rejected> {
        match (self.phase, event) {
            (Phase::Failed { fatal }, _) => Err(Rejected::Halted { fatal }),
            (Phase::Uninitialized, Event::Started) => Ok(
                (
                    self.in_phase(Phase::AwaitingAdapter),
                    seq![Action::RequestAdapter { options: adapter_options_for(self.settings) }],
                ),
            ),
            (Phase::AwaitingAdapter, Event::AdapterFound) => Ok(
                (
                    self.in_phase(Phase::AwaitingDevice),
                    seq![Action::RequestDevice { descriptor: device_descriptor() }],
                ),
            ),
            (Phase::AwaitingAdapter, Event::AdapterMissing) => Ok(
                (
                    self.in_phase(Phase::Failed { fatal: Fatal::NoAdapter }),
                    seq![Action::Abort { fatal: Fatal::NoAdapter }],
                ),
            ),
            (Phase::AwaitingDevice, Event::DeviceReady) => match self.surface {
                Some(size) => Ok(
                    (
                        State { phase: Phase::Ready, chain: Some(size), ..self },
                        seq![
                            Action::CreateSwapChain {
                                descriptor: swap_chain_for(self.settings.format, size),
                            },
                        ],
                    ),
                ),
                None => Ok((self.in_phase(Phase::Ready), Seq::empty())),
            },
            (Phase::AwaitingDevice, Event::DeviceMissing) => Ok(
                (
                    self.in_phase(Phase::Failed { fatal: Fatal::NoDevice }),
                    seq![Action::Abort { fatal: Fatal::NoDevice }],
                ),
            ),
            (Phase::Ready, Event::Resized { width, height }) => {
                let size = Extent { width, height };
                Ok(
                    (
                        State { surface: Some(size), chain: Some(size), ..self },
                        seq![
                            Action::CreateSwapChain {
                                descriptor: swap_chain_for(self.settings.format, size),
                            },
                        ],
                    ),
                )
            },
            (_, Event::Resized { width, height }) => Ok(
                (self.with_surface(Extent { width, height }), Seq::empty()),
            ),
            (Phase::Ready, Event::DrawRequested { scene }) => match self.surface {
                Some(size) => if self.chain == Some(size) {
                    Ok((self.in_phase(Phase::Acquiring { scene }), seq![Action::AcquireImage]))
                } else {
                    Ok(
                        (
                            State { phase: Phase::Acquiring { scene }, chain: Some(size), ..self },
                            seq![
                                Action::CreateSwapChain {
                                    descriptor: swap_chain_for(self.settings.format, size),
                                },
                                Action::AcquireImage,
                            ],
                        ),
                    )
                },
                None => Err(Rejected::OutOfTurn),
            },
            (Phase::Acquiring { scene }, Event::ImageAcquired) => Ok(
                (
                    self.in_phase(Phase::Rendering),
                    seq![
                        Action::BeginRecording,
                        Action::Clear { pass: clear_pass() },
                        Action::Render { scene },
                    ],
                ),
            ),
            (Phase::Acquiring { .. }, Event::ImageUnavailable) => Ok(
                (
                    self.in_phase(Phase::Failed { fatal: Fatal::NoImage }),
                    seq![Action::Abort { fatal: Fatal::NoImage }],
                ),
            ),
            (Phase::Rendering, Event::Rendered { interaction }) => Ok(
                (
                    self.in_phase(Phase::Ready),
                    seq![
                        Action::FinishRecording,
                        Action::Submit,
                        Action::Present,
                        Action::Report { interaction },
                    ],
                ),
            ),
            _ => Err(Rejected::OutOfTurn),
        }
    }
}

/// The decisions of a window graphics backend: where it stands between
/// startup and the frames, and what the host has to do next.
#[derive(Debug)]
pub struct Compositor {
    state: State,
}

impl View for Compositor {
    type V = State;

    closed spec fn view(&self) -> State {
        self.state
    }
}

impl Compositor {
    /// A compositor is always in a state that it can be in.
    #[verifier::type_invariant]
    pub closed spec fn sound(self) -> bool {
        self.state.well_formed()
    }

    /// Creates a compositor that has asked nothing of the platform yet.
    pub fn new(settings: Settings) -> (compositor: Compositor)
        ensures
            compositor@ == State::initial(settings),
    {
        Compositor {
            state: State { settings, phase: Phase::Uninitialized, surface: None, chain: None },
        }
    }

    /// Returns what the compositor knows.
    pub fn state(&self) -> (state: State)
        ensures
            state == self@,
            state.well_formed(),
    {
        proof {
            use_type_invariant(self);
        }
        self.state
    }

    /// Returns the adapter to ask for under `settings`.
    pub fn adapter_options(settings: &Settings) -> (options: AdapterOptions)
        ensures
            options == adapter_options_for(*settings),
    {
        AdapterOptions {
            power_preference: if settings.antialiasing.is_none() {
                PowerPreference::LowPower
            } else {
                PowerPreference::HighPerformance
            },
            compatible_surface: false,
        }
    }

    /// Returns the description of the presentation chain for a window of
    /// `width` by `height` pixels.
    pub fn swap_chain_descriptor(&self, width: u32, height: u32) -> (descriptor: SwapChainDescriptor)
        ensures
            descriptor == swap_chain_for(self@.settings.format, Extent { width, height }),
    {
        SwapChainDescriptor {
            format: self.state.settings.format,
            width,
            height,
            present_mode: PresentMode::Mailbox,
        }
    }

    /// Takes note of `event` and returns the actions to take on it, in their
    /// order; or says why the event is not acted upon.
    pub fn step(&mut self, event: Event) -> (outcome: Result<Vec<Action>, Rejected>)
        ensures
            match outcome {
                Ok(actions) => old(self)@.next(event) matches Ok(after) && after.0 == final(self)@
                    && after.1 == actions@,
                Err(rejected) => old(self)@.next(event) matches Err(why) && why == rejected
                    && final(self)@ == old(self)@,
            },
            final(self)@.well_formed(),
    {
        proof {
            use_type_invariant(&*self);
        }
        let state: State = self.state;
        let mut actions: Vec<Action> = Vec::new();
        match (state.phase, event) {
            (Phase::Failed { fatal }, _) => {
                return Err(Rejected::Halted { fatal });
            },
            (Phase::Uninitialized, Event::Started) => {
                actions.push(
                    Action::RequestAdapter { options: Compositor::adapter_options(&state.settings) },
                );
                self.state.phase = Phase::AwaitingAdapter;
            },
            (Phase::AwaitingAdapter, Event::AdapterFound) => {
                actions.push(
                    Action::RequestDevice {
                        descriptor: DeviceDescriptor { anisotropic_filtering: false, max_bind_groups: 2 },
                    },
                );
                self.state.phase = Phase::AwaitingDevice;
            },
            (Phase::AwaitingAdapter, Event::AdapterMissing) => {
                actions.push(Action::Abort { fatal: Fatal::NoAdapter });
                self.state.phase = Phase::Failed { fatal: Fatal::NoAdapter };
            },
            (Phase::AwaitingDevice, Event::DeviceReady) => {
                match state.surface {
                    Some(size) => {
                        actions.push(
                            Action::CreateSwapChain {
                                descriptor: self.swap_chain_descriptor(size.width, size.height),
                            },
                        );
                        self.state = State { phase: Phase::Ready, chain: Some(size), ..state };
                    },
                    None => {
                        self.state.phase = Phase::Ready;
                    },
                }
            },
            (Phase::AwaitingDevice, Event::DeviceMissing) => {
                actions.push(Action::Abort { fatal: Fatal::NoDevice });
                self.state.phase = Phase::Failed { fatal: Fatal::NoDevice };
            },
            (Phase::Ready, Event::Resized { width, height }) => {
                let size: Extent = Extent { width, height };
                actions.push(
                    Action::CreateSwapChain { descriptor: self.swap_chain_descriptor(width, height) },
                );
                self.state = State { surface: Some(size), chain: Some(size), ..state };
            },
            (_, Event::Resized { width, height }) => {
                self.state = State { surface: Some(Extent { width, height }), ..state };
            },
            (Phase::Ready, Event::DrawRequested { scene }) => {
                match state.surface {
                    Some(size) => {
                        let current: bool = match state.chain {
                            Some(made_for) => made_for.width == size.width && made_for.height
                                == size.height,
                            None => false,
                        };
                        if !current {
                            actions.push(
                                Action::CreateSwapChain {
                                    descriptor: self.swap_chain_descriptor(size.width, size.height),
                                },
                            );
                        }
                        actions.push(Action::AcquireImage);
                        self.state = State { phase: Phase::Acquiring { scene }, chain: Some(size), ..state };
                    },
                    None => {
                        return Err(Rejected::OutOfTurn);
                    },
                }
            },
            (Phase::Acquiring { scene }, Event::ImageAcquired) => {
                actions.push(Action::BeginRecording);
                actions.push(
                    Action::Clear {
                        pass: ClearPass {
                            clear_color: Color { r: 255, g: 255, b: 255, a: 255 },
                            depth_stencil: false,
                        },
                    },
                );
                actions.push(Action::Render { scene });
                self.state.phase = Phase::Rendering;
            },
            (Phase::Acquiring { .. }, Event::ImageUnavailable) => {
                actions.push(Action::Abort { fatal: Fatal::NoImage });
                self.state.phase = Phase::Failed { fatal: Fatal::NoImage };
            },
            (Phase::Rendering, Event::Rendered { interaction }) => {
                actions.push(Action::FinishRecording);
                actions.push(Action::Submit);
                actions.push(Action::Present);
                actions.push(Action::Report { interaction });
                self.state.phase = Phase::Ready;
            },
            _ => {
                return Err(Rejected::OutOfTurn);
            },
        }
        proof {
            assert(old(self)@.next(event) matches Ok(after) && after.1 =~= actions@);
        }
        Ok(actions)
    }
}

/// Whatever happens, a compositor stays in a state that it can be in.
pub proof fn lemma_next_is_well_formed(state: State, event: Event)
    requires
        state.well_formed(),
    ensures
        state.next(event) matches Ok(after) ==> after.0.well_formed(),
{
}

/// An image is only ever taken from a presentation chain that was made for
/// the window as it is at that moment. Where the chain at hand was made for
/// another size, or there is none yet, a new one is made first.
pub proof fn lemma_image_comes_from_current_chain(state: State, event: Event)
    requires
        state.well_formed(),
        state.next(event) is Ok,
        state.next(event)->Ok_0.1.contains(Action::AcquireImage),
    ensures
        state.surface is Some,
        state.next(event)->Ok_0.0.chain == state.surface,
        state.next(event)->Ok_0.0.surface == state.surface,
        state.chain == state.surface ==> state.next(event)->Ok_0.1 == seq![Action::AcquireImage],
        state.chain != state.surface ==> state.next(event)->Ok_0.1 == seq![
            Action::CreateSwapChain {
                descriptor: swap_chain_for(state.settings.format, state.surface->0),
            },
            Action::AcquireImage,
        ],
{
    let actions = state.next(event)->Ok_0.1;
    let i = choose|i: int| 0 <= i < actions.len() && actions[i] == Action::AcquireImage;
    assert(actions[i] == Action::AcquireImage);
}

/// A new size of the window reaches the next frame, whenever it is
/// reported: between two frames the presentation chain is made anew at once,
/// and during a frame the new size is kept until the next one is asked for.
/// Either way the next image is taken from a chain of the new size.
pub proof fn lemma_resize_reaches_next_frame(state: State, width: u32, height: u32, scene: Scene)
    requires
        state.well_formed(),
        state.phase is Ready,
    ensures
        ({
            let size = Extent { width, height };
            let made = Action::CreateSwapChain { descriptor: swap_chain_for(state.settings.format, size) };
            let resized = state.next(Event::Resized { width, height });
            &&& resized matches Ok(r)
            &&& r.1 == seq![made]
            &&& r.0.next(Event::DrawRequested { scene }) matches Ok(d)
            &&& d.1 == seq![Action::AcquireImage]
            &&& d.0.chain == Some(size)
        }),
{
}

/// A new size that is reported while a frame is under way does not disturb
/// that frame, and the frame after it is drawn on a chain of the new size.
pub proof fn lemma_resize_during_frame_is_deferred(
    state: State,
    width: u32,
    height: u32,
    interaction: Interaction,
    scene: Scene,
)
    requires
        state.well_formed(),
        state.phase is Rendering,
        state.chain != Some(Extent { width, height }),
    ensures
        ({
            let size = Extent { width, height };
            let made = Action::CreateSwapChain { descriptor: swap_chain_for(state.settings.format, size) };
            let resized = state.next(Event::Resized { width, height });
            &&& resized matches Ok(r)
            &&& r.1 == Seq::<Action>::empty()
            &&& r.0.chain == state.chain
            &&& r.0.next(Event::Rendered { interaction }) matches Ok(done)
            &&& done.0.next(Event::DrawRequested { scene }) matches Ok(d)
            &&& d.1 == seq![made, Action::AcquireImage]
            &&& d.0.chain == Some(size)
        }),
{
}

/// Once the window has a size, a frame runs its course whatever the scene
/// holds, an empty scene too: the image is taken, cleared to white in one
/// pass without depth or stencil, handed to the backend, submitted and
/// presented, in that order, and the backend's answer is reported. No step
/// aborts, and the compositor is ready for the next frame.
pub proof fn lemma_frame_runs_its_course(state: State, scene: Scene, interaction: Interaction)
    requires
        state.well_formed(),
        state.phase is Ready,
        state.surface is Some,
    ensures
        ({
            let requested = state.next(Event::DrawRequested { scene });
            &&& requested matches Ok(a)
            &&& a.1.last() == Action::AcquireImage
            &&& a.0.next(Event::ImageAcquired) matches Ok(b)
            &&& b.1 == seq![
                Action::BeginRecording,
                Action::Clear { pass: clear_pass() },
                Action::Render { scene },
            ]
            &&& b.0.next(Event::Rendered { interaction }) matches Ok(c)
            &&& c.1 == seq![
                Action::FinishRecording,
                Action::Submit,
                Action::Present,
                Action::Report { interaction },
            ]
            &&& c.0.phase is Ready
            &&& c.0.chain_is_current()
        }),
{
}

/// Whatever the event, the actions that answer it come in the order of a
/// frame: recording begins before the image is cleared, the image is cleared
/// before the backend draws to it, recording is finished before the commands
/// are submitted, and they are submitted before the image is presented.
pub proof fn lemma_actions_come_in_order(state: State, event: Event, i: int, j: int)
    requires
        state.next(event) is Ok,
        0 <= i < state.next(event)->Ok_0.1.len(),
        0 <= j < state.next(event)->Ok_0.1.len(),
    ensures
        ({
            let actions = state.next(event)->Ok_0.1;
            &&& actions[i] is BeginRecording && actions[j] is Clear ==> i < j
            &&& actions[i] is Clear && actions[j] is Render ==> i < j
            &&& actions[i] is FinishRecording && actions[j] is Submit ==> i < j
            &&& actions[i] is Submit && actions[j] is Present ==> i < j
            &&& actions[i] is CreateSwapChain && actions[j] is AcquireImage ==> i < j
        }),
{
}

/// A fatal failure is final: after it every event is turned away, and the
/// state does not change any more.
pub proof fn lemma_failure_is_final(state: State, event: Event)
    requires
        state.phase is Failed,
    ensures
        state.next(event) == Err::<(State, Seq<Action>), Rejected>(
            Rejected::Halted { fatal: state.phase->fatal },
        ),
{
}

/// A frame whose image cannot be had ends the compositor: the frame is
/// aborted, nothing of it is submitted or presented, and nothing is tried
/// again.
pub proof fn lemma_missing_image_is_fatal(state: State)
    requires
        state.phase is Acquiring,
    ensures
        state.next(Event::ImageUnavailable) matches Ok(after) && after.0.phase == (Phase::Failed {
            fatal: Fatal::NoImage,
        }) && after.1 == seq![Action::Abort { fatal: Fatal::NoImage }],
{
}

} // verus!
