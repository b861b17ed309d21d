//! The frame renderer: what it decides, without the device.
//!
//! The renderer keeps the size of the presentation surface, of its
//! configuration and of the multisample target, the registry of entities and
//! the hook that runs once per frame. Whoever owns the window and the device
//! hands it events and the outcome of acquiring a surface image; it answers
//! with what has to be done: which device work to carry through, which
//! entities to draw and how, when to reconfigure, when to stop.

use crate::device::{
    clock_elapsed, clock_now, duration_micros, fault_named, is_srgb, srgb_of, surface_fault,
};
use crate::entity::{all_sent, are_drained, is_work_of, DeviceWork, Entity, EntityList};
use crate::scalar::{
    exact_scalar, is_product, is_quotient, is_scalar_of, is_small_scalar_of, scalar_of, Scalar,
};
use vstd::prelude::*;
use vstd::std_specs::convert::FromSpec;
use vstd::std_specs::ops::{DivSpec, MulSpec};

verus! {

/// Samples per pixel of the multisample target and of every pipeline.
pub const SAMPLE_COUNT: u32 = 4;

/// How many frames the surface may queue.
pub const FRAME_LATENCY: u32 = 2;

/// After how many presented frames the frame rate is reported.
pub const REPORT_EVERY: u64 = 200;

/// A width and a height in pixels.
#[derive(Clone, Copy, Debug, PartialEq, Eq, Structural)]
pub struct SurfaceSize {
    pub width: u32,
    pub height: u32,
}

/// Why the attempt to acquire the next surface image gave no image.
#[derive(Clone, Copy, Debug, PartialEq, Eq, Structural)]
pub enum SurfaceFault {
    /// No image came in time.
    Timeout,
    /// The surface has changed underneath.
    Outdated,
    /// The surface was lost and must be configured again.
    Lost,
    /// The device has no memory left.
    OutOfMemory,
}

/// What is reported when the frame rate is due.
#[derive(Clone, Copy, Debug, PartialEq, Eq, Structural)]
pub struct FrameReport {
    /// How many frames were presented since the last report.
    pub frames: u16,
    /// How many microseconds passed since the last report, by the clock.
    pub elapsed_micros: u64,
}

/// What the window system reports.
#[derive(Clone, Copy, Debug, PartialEq, Eq, Structural)]
pub enum LoopEvent {
    /// The window is asked to close.
    CloseRequested,
    /// All events are handled and the loop is about to wait.
    AboutToWait,
    /// The window wants a frame; the next surface image was asked for, and
    /// came unless there is a fault.
    RedrawRequested { fault: Option<SurfaceFault> },
    /// The window has a new size.
    Resized { width: u32, height: u32 },
    /// Anything else.
    Other,
}

/// One indexed draw: the entity at place `entity`, with its own pipeline or
/// the renderer's, its transform bound at slot 0 and its shader arguments
/// at slot 1, its vertex and index buffers, the indices from 0 up to
/// `index_count`, one instance.
#[derive(Clone, Copy, Debug, PartialEq, Eq, Structural)]
pub struct DrawCall {
    pub entity: usize,
    pub custom_pipeline: bool,
    pub index_count: u32,
}

/// What one frame asks of the device, in this order: the waiting work of
/// every entity, then one render pass that clears and draws, then
/// submission and presentation.
pub struct FramePlan<T: Copy + Clone> {
    /// For each place, the device work that waited in that entity's outbox.
    pub work: Vec<Vec<DeviceWork<T>>>,
    /// One draw for each entity, in drawing order.
    pub draws: Vec<DrawCall>,
}

/// What the owner of the window and the device has to do next.
pub enum LoopAction<T: Copy + Clone> {
    /// Leave the loop. `out_of_memory` tells a fatal device error from a
    /// request to close.
    Exit { out_of_memory: bool },
    /// Ask the window for a redraw.
    RequestRedraw,
    /// Carry the plan through and present. Where there is a report,
    /// announce the frame rate that it gives.
    Present { plan: FramePlan<T>, report: Option<FrameReport> },
    /// Create the multisample target anew at this size and configure the
    /// surface with it.
    Reconfigure { size: SurfaceSize },
    /// The frame failed for a reason that is only reported; go on.
    Skip,
    /// Nothing to do.
    Idle,
}

/// What runs once per frame, before anything is drawn: the place where the
/// application changes the scene.
pub trait FrameHook<T: Copy + Clone>: Sized {
    /// Whether the hook, as it is, can turn the scene `before` into the
    /// scene `after` in one frame. Each hook says so of itself; one that
    /// says nothing can do anything.
    open spec fn steps(&self, before: Seq<Entity<T>>, after: Seq<Entity<T>>) -> bool {
        true
    }

    /// Changes the scene for one frame.
    fn on_frame(&mut self, entities: &mut EntityList<T>)
        ensures
            old(self).steps(old(entities)@, final(entities)@),
    ;
}

/// The hook that leaves the scene as it is.
pub struct Still;

impl<T: Copy + Clone> FrameHook<T> for Still {
    open spec fn steps(&self, before: Seq<Entity<T>>, after: Seq<Entity<T>>) -> bool {
        after == before
    }

    fn on_frame(&mut self, entities: &mut EntityList<T>) {
    }
}

/// The renderer.
pub struct BaseRenderer<T: Copy + Clone, H> {
    config: SurfaceSize,
    size: SurfaceSize,
    multisample: SurfaceSize,
    pub entities: EntityList<T>,
    main_loop: Option<H>,
    frames: u64,
    time: coarsetime::Instant,
}

/// What a renderer is, as plain values.
pub ghost struct RendererView<T: Copy + Clone, H> {
    /// The size in the surface configuration.
    pub config: SurfaceSize,
    /// The size of the window as last accepted.
    pub size: SurfaceSize,
    /// The size of the multisample target.
    pub multisample: SurfaceSize,
    /// The entities, in drawing order.
    pub entities: Seq<Entity<T>>,
    /// The frame hook, if one is set.
    pub hook: Option<H>,
    /// Frames presented since the last report.
    pub frames: nat,
    /// The reading of the clock at the last report, or when the renderer
    /// was made.
    pub since: coarsetime::Instant,
}

impl<T: Copy + Clone, H> View for BaseRenderer<T, H> {
    type V = RendererView<T, H>;

    closed spec fn view(&self) -> RendererView<T, H> {
        RendererView {
            config: self.config,
            size: self.size,
            multisample: self.multisample,
            entities: self.entities@,
            hook: self.main_loop,
            frames: self.frames as nat,
            since: self.time,
        }
    }
}

/// Whether the renderer may start a frame: the configuration and the
/// multisample target have the size of the window, and the frame count is
/// below the number at which a report is due.
pub open spec fn is_coherent<T: Copy + Clone, H>(r: RendererView<T, H>) -> bool {
    &&& r.config == r.size
    &&& r.multisample == r.size
    &&& r.frames < REPORT_EVERY
}

/// Whether a size is accepted: both dimensions are positive.
pub open spec fn has_area(size: SurfaceSize) -> bool {
    size.width > 0 && size.height > 0
}

/// The renderer after a resize to `size`: every size follows it where it
/// has an area, nothing changes where it has none.
pub open spec fn resized<T: Copy + Clone, H>(r: RendererView<T, H>, size: SurfaceSize) -> RendererView<
    T,
    H,
> {
    if has_area(size) {
        RendererView { config: size, size: size, multisample: size, ..r }
    } else {
        r
    }
}

/// The draw of the entity `e` at place `k`.
pub open spec fn draw_of<T: Copy + Clone>(e: Entity<T>, k: int) -> DrawCall {
    DrawCall {
        entity: k as usize,
        custom_pipeline: e@.custom_pipeline,
        index_count: e@.index_size,
    }
}

/// One draw for each entity, in drawing order.
pub open spec fn draws_of<T: Copy + Clone>(entities: Seq<Entity<T>>) -> Seq<DrawCall> {
    Seq::new(entities.len(), |k: int| draw_of(entities[k], k))
}

/// Whether `plan` is the frame of the scene `before`, which leaves it as
/// `after`: the work is what waited, every outbox is empty, and there is
/// one draw for each entity.
pub open spec fn is_plan_of<T: Copy + Clone>(
    plan: FramePlan<T>,
    before: Seq<Entity<T>>,
    after: Seq<Entity<T>>,
) -> bool {
    &&& is_work_of(plan.work@, before)
    &&& are_drained(before, after)
    &&& all_sent(after)
    &&& plan.draws@ == draws_of(before)
}

/// Reads how the attempt to acquire the next surface image ended: with an
/// image, or with the fault that has the name of the graphics crate's
/// error.
pub fn fault_of(outcome: &Result<wgpu::SurfaceTexture, wgpu::SurfaceError>) -> (fault: Option<
    SurfaceFault,
>)
    ensures
        outcome.is_ok() <==> fault.is_none(),
        outcome matches Err(error) ==> fault == Some(fault_named(*error)),
{
    match outcome {
        Ok(_) => None,
        Err(error) => Some(surface_fault(error)),
    }
}

/// Whether `found` is the place of the first flag that is set, or nothing
/// where none is set.
pub open spec fn is_first_set(flags: Seq<bool>, found: Option<usize>) -> bool {
    match found {
        Some(k) => k < flags.len() && flags[k as int] && forall|j: int| 0 <= j < k ==> !flags[j],
        None => forall|j: int| 0 <= j < flags.len() ==> !flags[j],
    }
}

/// Whether `k` is the place of the first flag that is set, or the first
/// place of all where none is set.
pub open spec fn is_first_set_or_first(flags: Seq<bool>, k: usize) -> bool {
    is_first_set(flags, Some(k)) || (k == 0 && is_first_set(flags, None))
}

/// The place of the first flag that is set, if any is.
pub fn first_set(flags: &Vec<bool>) -> (found: Option<usize>)
    ensures
        is_first_set(flags@, found),
{
    let mut k: usize = 0;
    while k < flags.len()
        invariant
            k <= flags@.len(),
            forall|j: int| 0 <= j < k ==> !flags@[j],
        decreases flags@.len() - k,
    {
        if flags[k] {
            return Some(k);
        }
        k += 1;
    }
    None
}

/// Picks the graphics adapter: the first of those offered that can present
/// to the surface. `supported[k]` tells whether the `k`-th can.
pub fn select_adapter(supported: &Vec<bool>) -> (found: Option<usize>)
    ensures
        is_first_set(supported@, found),
{
    first_set(supported)
}

/// Picks the surface format: the first of those offered that is sRGB, the
/// first of all where none is. `is_srgb[k]` tells whether the `k`-th is.
pub fn select_surface_format(is_srgb: &Vec<bool>) -> (k: usize)
    requires
        is_srgb@.len() > 0,
    ensures
        k < is_srgb@.len(),
        is_first_set_or_first(is_srgb@, k),
{
    match first_set(is_srgb) {
        Some(k) => k,
        None => 0,
    }
}

/// For each format, whether it is sRGB.
pub open spec fn srgb_flags(formats: Seq<wgpu::TextureFormat>) -> Seq<bool> {
    Seq::new(formats.len(), |j: int| srgb_of(formats[j]))
}

/// Picks the surface format among those offered: the first that is sRGB,
/// the first of all where none is.
pub fn surface_format(formats: &Vec<wgpu::TextureFormat>) -> (picked: usize)
    requires
        formats@.len() > 0,
    ensures
        picked < formats@.len(),
        is_first_set_or_first(srgb_flags(formats@), picked),
{
    let mut flags: Vec<bool> = Vec::new();
    let mut k: usize = 0;
    while k < formats.len()
        invariant
            k <= formats@.len(),
            flags@ == srgb_flags(formats@.take(k as int)),
        decreases formats@.len() - k,
    {
        flags.push(is_srgb(&formats[k]));
        k += 1;
        assert(flags@ =~= srgb_flags(formats@.take(k as int)));
    }
    assert(formats@.take(k as int) =~= formats@);
    select_surface_format(&flags)
}

/// One draw for each entity, in drawing order.
pub fn draw_list<T: Scalar>(entities: &EntityList<T>) -> (draws: Vec<DrawCall>)
    ensures
        draws@ == draws_of(entities@),
{
    let all = entities.iter();
    let mut draws: Vec<DrawCall> = Vec::new();
    let mut k: usize = 0;
    while k < all.len()
        invariant
            all@ == entities@,
            k <= all@.len(),
            draws@ == draws_of(entities@.take(k as int)),
        decreases all@.len() - k,
    {
        let e = &all[k];
        draws.push(
            DrawCall { entity: k, custom_pipeline: e.has_pipeline(), index_count: e.index_count() },
        );
        k += 1;
        assert(draws@ =~= draws_of(entities@.take(k as int)));
    }
    assert(entities@.take(k as int) =~= entities@);
    draws
}

/// Plans one frame of the scene: takes the waiting device work out of every
/// entity and lists one draw for each.
pub fn plan_frame<T: Scalar>(entities: &mut EntityList<T>) -> (plan: FramePlan<T>)
    ensures
        is_plan_of(plan, old(entities)@, final(entities)@),
{
    let draws = draw_list(entities);
    let work = entities.take_work();
    FramePlan { work, draws }
}

/// The frame rate after `frames` frames in `elapsed` microseconds: a
/// million times the quotient of the two, the million made as a thousand
/// times a thousand.
pub fn frames_per_second<T: Scalar>(frames: u16, elapsed: T) -> (fps: T)
    requires
        rate_req(frames, elapsed),
    ensures
        is_rate(frames, elapsed, fps),
{
    let thousand: T = <T as From<u16>>::from(1000u16);
    let count: T = <T as From<u16>>::from(frames);
    assert(is_scalar_of(1000u16, thousand));
    assert(is_scalar_of(frames, count));
    let million = thousand * thousand;
    let per_micro = count / elapsed;
    assert(is_product(thousand, thousand, million));
    assert(is_quotient(count, elapsed, per_micro));
    let fps = million * per_micro;
    assert(is_product(million, per_micro, fps));
    fps
}

/// The colour that a frame is cleared to, as red, green, blue and opacity:
/// a mid-gray of three tenths each, fully opaque.
pub fn clear_color<T: Scalar>() -> (color: (T, T, T, T))
    requires
        forall|three: T, ten: T|
            #[trigger] is_small_scalar_of(3u8, three) && #[trigger] is_small_scalar_of(10u8, ten)
                ==> three.div_req(ten),
    ensures
        is_clear_color(color),
{
    let three: T = <T as From<u8>>::from(3u8);
    let ten: T = <T as From<u8>>::from(10u8);
    let one: T = <T as From<u8>>::from(1u8);
    assert(is_small_scalar_of(3u8, three) && is_small_scalar_of(10u8, ten));
    let gray = three / ten;
    assert(is_quotient(three, ten, gray));
    (gray, gray, gray, one)
}

/// Whether `color` is the colour that a frame is cleared to: red, green
/// and blue are one quotient of three and ten, the opacity is one.
pub open spec fn is_clear_color<T: Scalar>(color: (T, T, T, T)) -> bool {
    &&& exists|three: T, ten: T|
        #[trigger] is_small_scalar_of(3u8, three) && #[trigger] is_small_scalar_of(10u8, ten)
            && is_quotient(three, ten, color.0)
    &&& color.1 == color.0
    &&& color.2 == color.0
    &&& is_small_scalar_of(1u8, color.3)
    &&& exact_scalar::<T>() ==> color.0 == <T as FromSpec<u8>>::from_spec(3u8).div_spec(
        <T as FromSpec<u8>>::from_spec(10u8),
    ) && color.3 == <T as FromSpec<u8>>::from_spec(1u8)
}

/// Whether the frame rate can be computed: every step of it may be called
/// on whatever the steps before can return.
pub open spec fn rate_req<T: Scalar>(frames: u16, elapsed: T) -> bool {
    &&& forall|k: T| #[trigger] is_scalar_of(1000u16, k) ==> k.mul_req(k)
    &&& forall|c: T| #[trigger] is_scalar_of(frames, c) ==> c.div_req(elapsed)
    &&& forall|k: T, c: T, m: T, q: T|
        is_scalar_of(1000u16, k) && is_scalar_of(frames, c) && #[trigger] is_product(k, k, m)
            && #[trigger] is_quotient(c, elapsed, q) ==> m.mul_req(q)
}

/// The frame rate after `frames` frames in `elapsed` microseconds.
pub open spec fn rate_of<T: Scalar>(frames: u16, elapsed: T) -> T {
    scalar_of::<T>(1000u16).mul_spec(scalar_of::<T>(1000u16)).mul_spec(
        scalar_of::<T>(frames).div_spec(elapsed),
    )
}

/// Whether `fps` is a frame rate after `frames` frames in `elapsed`
/// microseconds: a product of a million, itself a product of a thousand
/// with itself, and a quotient of the frames and the time. With a
/// deterministic scalar it is `rate_of(frames, elapsed)`.
pub open spec fn is_rate<T: Scalar>(frames: u16, elapsed: T, fps: T) -> bool {
    &&& exists|k: T, c: T, m: T, q: T|
        {
            &&& is_scalar_of(1000u16, k)
            &&& is_scalar_of(frames, c)
            &&& #[trigger] is_product(k, k, m)
            &&& #[trigger] is_quotient(c, elapsed, q)
            &&& is_product(m, q, fps)
        }
    &&& exact_scalar::<T>() ==> fps == rate_of(frames, elapsed)
}

/// Whether `plan` is the frame that a renderer with the hook `hook` makes
/// of the scene `before`, which leaves it as `after`: the hook, if there is
/// one, turns the scene into another, and the plan is that of the scene as
/// the hook left it.
pub open spec fn is_frame_of<T: Copy + Clone, H: FrameHook<T>>(
    hook: Option<H>,
    before: Seq<Entity<T>>,
    plan: FramePlan<T>,
    after: Seq<Entity<T>>,
) -> bool {
    match hook {
        Some(h) => exists|mid: Seq<Entity<T>>|
            h.steps(before, mid) && #[trigger] is_plan_of(plan, mid, after),
        None => is_plan_of(plan, before, after),
    }
}

impl<T: Scalar, H: FrameHook<T>> BaseRenderer<T, H> {
    /// A renderer for a window of the given size: the configuration and
    /// the multisample target have that size, there are no entities and no
    /// frame hook, and the clock is read.
    pub fn new(width: u32, height: u32) -> (r: Self)
        ensures
            r@ == (RendererView::<T, H> {
                config: SurfaceSize { width, height },
                size: SurfaceSize { width, height },
                multisample: SurfaceSize { width, height },
                entities: Seq::empty(),
                hook: None,
                frames: 0,
                since: r@.since,
            }),
            is_coherent(r@),
    {
        let size = SurfaceSize { width, height };
        let r = Self {
            config: size,
            size,
            multisample: size,
            entities: EntityList::new(),
            main_loop: None,
            frames: 0,
            time: clock_now(),
        };
        assert(r@.entities =~= Seq::empty());
        r
    }

    /// Sets the hook that runs once per frame.
    pub fn set_main_loop(&mut self, main_loop: H)
        ensures
            final(self)@ == (RendererView { hook: Some(main_loop), ..old(self)@ }),
    {
        self.main_loop = Some(main_loop);
    }

    /// The size in the surface configuration.
    pub fn config_size(&self) -> (s: SurfaceSize)
        ensures
            s == self@.config,
    {
        self.config
    }

    /// The size of the multisample target.
    pub fn multisample_size(&self) -> (s: SurfaceSize)
        ensures
            s == self@.multisample,
    {
        self.multisample
    }

    /// Follows the window to a new size. A size with an area becomes the
    /// size of the configuration and of the multisample target, and the
    /// result tells to create the target anew and to configure the surface.
    /// A size without area is ignored.
    pub fn resize(&mut self, new_size: SurfaceSize) -> (reconfigure: bool)
        ensures
            final(self)@ == resized(old(self)@, new_size),
            reconfigure == has_area(new_size),
            is_coherent(old(self)@) ==> is_coherent(final(self)@),
    {
        if new_size.height > 0 && new_size.width > 0 {
            self.config.height = new_size.height;
            self.config.width = new_size.width;
            self.size.height = new_size.height;
            self.size.width = new_size.width;
            self.multisample = self.size;
            true
        } else {
            false
        }
    }

    /// Renders one frame. With a fault, which means without an image,
    /// nothing happens and the fault is returned. With an image the frame
    /// hook runs once, if one is set; then the frame is planned from the
    /// scene as the hook left it.
    pub fn render(&mut self, fault: Option<SurfaceFault>) -> (frame: Result<
        FramePlan<T>,
        SurfaceFault,
    >)
        ensures
            fault.is_some() ==> frame == Err::<FramePlan<T>, SurfaceFault>(fault.unwrap())
                && final(self)@ == old(self)@,
            fault.is_none() ==> frame.is_ok() && is_frame_step(
                old(self)@,
                final(self)@,
                frame.unwrap(),
            ) && final(self)@.frames == old(self)@.frames && final(self)@.since == old(self)@.since,
    {
        if let Some(fault) = fault {
            return Err(fault);
        }
        let ghost before = self.entities@;
        let ghost hook = self.main_loop;
        match &mut self.main_loop {
            Some(func) => func.on_frame(&mut self.entities),
            None => (),
        }
        let ghost mid = self.entities@;
        let plan = plan_frame(&mut self.entities);
        proof {
            if hook.is_some() {
                assert(hook.unwrap().steps(before, mid));
                assert(is_plan_of(plan, mid, self.entities@));
            }
        }
        Ok(plan)
    }

    /// Answers one event of the window system.
    pub fn run(&mut self, event: LoopEvent) -> (action: LoopAction<T>)
        requires
            is_coherent(old(self)@),
        ensures
            is_coherent(final(self)@),
            is_answer_to(event, old(self)@, final(self)@, action),
    {
        match event {
            LoopEvent::CloseRequested => LoopAction::Exit { out_of_memory: false },
            LoopEvent::AboutToWait => LoopAction::RequestRedraw,
            LoopEvent::RedrawRequested { fault } => match self.render(fault) {
                Err(SurfaceFault::Lost) => self.reconfigure(),
                Err(SurfaceFault::Outdated) => self.reconfigure(),
                Err(SurfaceFault::OutOfMemory) => LoopAction::Exit { out_of_memory: true },
                Err(SurfaceFault::Timeout) => LoopAction::Skip,
                Ok(plan) => {
                    self.frames += 1;
                    let mut report: Option<FrameReport> = None;
                    if self.frames >= REPORT_EVERY {
                        let elapsed = clock_elapsed(&self.time);
                        let elapsed_micros = duration_micros(&elapsed);
                        report = Some(FrameReport { frames: self.frames as u16, elapsed_micros });
                        self.frames = 0;
                        self.time = clock_now();
                    }
                    LoopAction::Present { plan, report }
                },
            },
            LoopEvent::Resized { width, height } => {
                let size = SurfaceSize { width, height };
                if self.resize(size) {
                    LoopAction::Reconfigure { size }
                } else {
                    LoopAction::Idle
                }
            },
            LoopEvent::Other => LoopAction::Idle,
        }
    }

    /// Asks to configure the surface again at the size it has, after it
    /// was lost or its image went stale.
    fn reconfigure(&mut self) -> (action: LoopAction<T>)
        ensures
            is_resize_answer(old(self)@.size, old(self)@, final(self)@, action),
            is_coherent(old(self)@) ==> is_coherent(final(self)@),
    {
        let size = self.size;
        if self.resize(size) {
            LoopAction::Reconfigure { size }
        } else {
            LoopAction::Idle
        }
    }
}

/// The frame count after one more frame: it starts anew once it has
/// reached the number at which a report is due.
pub open spec fn next_frames(frames: nat) -> nat {
    if frames + 1 >= REPORT_EVERY {
        0
    } else {
        frames + 1
    }
}

/// Whether `report` is what is due after one more frame: once the number
/// of frames since the last report has reached the limit, a report of that
/// number and of the time that the clock gives; none before.
pub open spec fn is_report_due(frames: nat, report: Option<FrameReport>) -> bool {
    match report {
        Some(r) => frames + 1 >= REPORT_EVERY && r.frames == frames + 1,
        None => frames + 1 < REPORT_EVERY,
    }
}

/// Whether `action` and the renderer `after` answer `event` for the
/// renderer `before`.
pub open spec fn is_answer_to<T: Copy + Clone, H: FrameHook<T>>(
    event: LoopEvent,
    before: RendererView<T, H>,
    after: RendererView<T, H>,
    action: LoopAction<T>,
) -> bool {
    match event {
        LoopEvent::CloseRequested => after == before && action == (LoopAction::<T>::Exit {
            out_of_memory: false,
        }),
        LoopEvent::AboutToWait => after == before && action == LoopAction::<T>::RequestRedraw,
        LoopEvent::Other => after == before && action == LoopAction::<T>::Idle,
        LoopEvent::Resized { width, height } => is_resize_answer(
            SurfaceSize { width, height },
            before,
            after,
            action,
        ),
        LoopEvent::RedrawRequested { fault } => match fault {
            Some(SurfaceFault::Lost) => is_resize_answer(before.size, before, after, action),
            Some(SurfaceFault::Outdated) => is_resize_answer(before.size, before, after, action),
            Some(SurfaceFault::OutOfMemory) => after == before && action == (LoopAction::<
                T,
            >::Exit { out_of_memory: true }),
            Some(SurfaceFault::Timeout) => after == before && action == LoopAction::<T>::Skip,
            None => is_frame_answer(before, after, action),
        },
    }
}

/// Whether `action` and the renderer `after` answer a resize to `size`.
pub open spec fn is_resize_answer<T: Copy + Clone, H>(
    size: SurfaceSize,
    before: RendererView<T, H>,
    after: RendererView<T, H>,
    action: LoopAction<T>,
) -> bool {
    &&& after == resized(before, size)
    &&& action == if has_area(size) {
        LoopAction::<T>::Reconfigure { size }
    } else {
        LoopAction::<T>::Idle
    }
}

/// Whether the renderer `after` and `plan` are one frame on from the
/// renderer `before`: the sizes stay, a hook stays set or unset, and the
/// plan is the frame that the hook of `before` makes of its scene.
pub open spec fn is_frame_step<T: Copy + Clone, H: FrameHook<T>>(
    before: RendererView<T, H>,
    after: RendererView<T, H>,
    plan: FramePlan<T>,
) -> bool {
    &&& after.config == before.config
    &&& after.size == before.size
    &&& after.multisample == before.multisample
    &&& after.hook.is_some() == before.hook.is_some()
    &&& is_frame_of(before.hook, before.entities, plan, after.entities)
}

/// Whether `action` and the renderer `after` answer a frame for which there
/// is an image: the renderer is one frame on, the frame count moves on, and
/// the action presents the plan with the report that is due. The clock
/// reading is kept where no report is due.
pub open spec fn is_frame_answer<T: Copy + Clone, H: FrameHook<T>>(
    before: RendererView<T, H>,
    after: RendererView<T, H>,
    action: LoopAction<T>,
) -> bool {
    &&& action matches LoopAction::Present { plan, report }
    &&& is_frame_step(before, after, plan)
    &&& after.frames == next_frames(before.frames)
    &&& is_report_due(before.frames, report)
    &&& report.is_none() ==> after.since == before.since
}

} // verus!
