use vstd::prelude::*;

use crate::swapchain::Extent;

verus! {

/// Frame slots that may be in flight on the GPU at once.
pub const MAX_FRAMES_IN_FLIGHT: usize = 2;

/// Sprite instances the instance buffer holds in one frame.
pub const MAX_SPRITES: usize = 10000;

/// Textures the descriptor pool has room for.
pub const MAX_TEXTURES: usize = 256;

/// Vertices of the quad drawn for each sprite instance.
pub const VERTEX_COUNT: usize = 4;

/// Bytes of one sprite instance: a position/size rect and a UV rect of four
/// `f32` each.
pub const INSTANCE_SIZE: u64 = 32;

/// Bytes of the instance buffer.
pub const INSTANCE_BUFFER_SIZE: u64 = 320000;

/// What the CPU knows of a frame slot's fence.
#[derive(Clone, Copy, Debug, PartialEq, Eq, Structural)]
pub enum FenceState {
    /// Signaled: the slot's last work is complete (or there was none).
    Signaled,
    /// Submitted work will signal it; not yet observed.
    Pending,
    /// Reset for the frame being recorded; only that frame's submission will
    /// signal it.
    Unsignaled,
}

/// Where the frame loop stands.
#[derive(Clone, Copy, Debug, PartialEq, Eq, Structural)]
pub enum Phase {
    /// Between frames.
    Idle,
    /// `begin_frame` asked for a swapchain rebuild; waiting for its outcome.
    Rebuilding,
    /// Waiting on the slot's fence and acquiring a swapchain image.
    Acquiring,
    /// Recording the slot's command buffer.
    Recording,
}

/// How an image acquisition ended.
#[derive(Clone, Copy, Debug, PartialEq, Eq, Structural)]
pub enum AcquireOutcome {
    /// An image was acquired; `suboptimal` where the swapchain no longer
    /// matches the surface exactly.
    Acquired { index: usize, suboptimal: bool },
    /// The swapchain is out of date; no image was acquired.
    OutOfDate,
}

/// What the frame loop must do at the start of a frame.
#[derive(Clone, Copy, Debug, PartialEq, Eq, Structural)]
pub struct BeginPlan {
    /// Where a rebuild is due: wait for the device to go idle, then rebuild the
    /// swapchain for a window of this size.
    pub rebuild: Option<Extent>,
    /// The slot whose fence to wait on, and whose command buffer and
    /// image-acquired signal the frame uses.
    pub slot: usize,
}

/// What to record at the start of a frame once an image has been acquired.
#[derive(Clone, Copy, Debug, PartialEq, Eq, Structural)]
pub struct RecordPlan {
    /// The slot whose fence to reset and whose command buffer to record.
    pub slot: usize,
    /// The swapchain image (and framebuffer) to render into.
    pub image: usize,
    /// Viewport, scissor and screen-size push constant.
    pub extent: Extent,
}

/// One instanced draw of a sprite batch.
#[derive(Clone, Copy, Debug, PartialEq, Eq, Structural)]
pub struct DrawCall {
    /// The slot whose command buffer takes the draw.
    pub slot: usize,
    /// The texture whose descriptor set to bind.
    pub texture: usize,
    /// Where in the instance buffer the batch's instances are written, in bytes.
    pub offset: u64,
    /// How many bytes of instance data are written there.
    pub byte_count: u64,
    pub vertex_count: u32,
    pub instance_count: u32,
}

/// What to submit and present at the end of a frame.
#[derive(Clone, Copy, Debug, PartialEq, Eq, Structural)]
pub struct SubmitPlan {
    /// The slot whose command buffer, image-acquired signal and fence to use.
    pub slot: usize,
    /// The swapchain image to present, and whose render-finished signal to use.
    pub image: usize,
}

/// The abstract state of the frame loop, swapchain and texture table.
pub ghost struct BackendModel {
    pub frame_idx: nat,
    pub fences: Seq<FenceState>,
    pub phase: Phase,
    pub current_img: nat,
    pub image_count: nat,
    pub resolution: Extent,
    pub requested: Extent,
    pub rebuild_pending: bool,
    pub cursor: nat,
    pub draws: nat,
    pub textures: nat,
}

/// The decisions of the rendering backend: which frame slot is in use, what
/// its fence is known to hold, when the swapchain must be rebuilt, where the
/// next sprite batch goes in the instance buffer, and which texture ids are
/// taken. The GPU work itself is done by the caller, as the returned plans say.
pub struct BackendState {
    frame_idx: usize,
    fences: Vec<FenceState>,
    phase: Phase,
    current_img: usize,
    image_count: usize,
    resolution: Extent,
    requested: Extent,
    rebuild_pending: bool,
    cursor: u64,
    draws: usize,
    textures: usize,
}

impl View for BackendState {
    type V = BackendModel;

    closed spec fn view(&self) -> BackendModel {
        BackendModel {
            frame_idx: self.frame_idx as nat,
            fences: self.fences@,
            phase: self.phase,
            current_img: self.current_img as nat,
            image_count: self.image_count as nat,
            resolution: self.resolution,
            requested: self.requested,
            rebuild_pending: self.rebuild_pending,
            cursor: self.cursor as nat,
            draws: self.draws as nat,
            textures: self.textures as nat,
        }
    }
}

/// The state invariant.
pub open spec fn wf(s: BackendModel) -> bool {
    &&& s.fences.len() == MAX_FRAMES_IN_FLIGHT
    &&& s.frame_idx < MAX_FRAMES_IN_FLIGHT
    &&& s.image_count <= usize::MAX
    &&& s.cursor <= INSTANCE_BUFFER_SIZE
    &&& s.draws <= s.cursor
    &&& s.textures <= MAX_TEXTURES
    &&& s.phase == Phase::Recording ==> {
        &&& s.current_img < s.image_count
        &&& s.fences[s.frame_idx as int] == FenceState::Unsignaled
    }
    // A fence is only ever reset for the frame being recorded: any other wait
    // on it returns.
    &&& forall|i: int|
        0 <= i < MAX_FRAMES_IN_FLIGHT && s.fences[i] == FenceState::Unsignaled ==> s.phase
            == Phase::Recording && i == s.frame_idx
}

/// The state right after start-up, with a swapchain of `image_count` images at
/// `resolution`. Fences are created signaled.
pub open spec fn initial(resolution: Extent, image_count: nat) -> BackendModel {
    BackendModel {
        frame_idx: 0,
        fences: seq![FenceState::Signaled, FenceState::Signaled],
        phase: Phase::Idle,
        current_img: 0,
        image_count,
        resolution,
        requested: resolution,
        rebuild_pending: false,
        cursor: 0,
        draws: 0,
        textures: 0,
    }
}

/// The state after a resize notification.
pub open spec fn resized(s: BackendModel, size: Extent) -> BackendModel {
    if size == s.resolution {
        BackendModel { requested: size, ..s }
    } else {
        BackendModel { requested: size, rebuild_pending: true, ..s }
    }
}

pub open spec fn begin_plan(s: BackendModel) -> BeginPlan {
    BeginPlan {
        rebuild: if s.rebuild_pending { Some(s.requested) } else { None },
        slot: s.frame_idx as usize,
    }
}

pub open spec fn begun(s: BackendModel) -> BackendModel {
    if s.rebuild_pending {
        BackendModel { phase: Phase::Rebuilding, rebuild_pending: false, ..s }
    } else {
        BackendModel { phase: Phase::Acquiring, ..s }
    }
}

/// After a device-idle wait and a rebuild that made `outcome`'s extent and
/// image count, or failed (`None`): every fence is then signaled.
pub open spec fn rebuilt(s: BackendModel, outcome: Option<(Extent, usize)>) -> BackendModel {
    let fences = seq![FenceState::Signaled, FenceState::Signaled];
    match outcome {
        Some((extent, n)) => BackendModel {
            fences,
            phase: Phase::Acquiring,
            resolution: extent,
            image_count: n as nat,
            ..s
        },
        None => BackendModel { fences, phase: Phase::Idle, rebuild_pending: true, ..s },
    }
}

pub open spec fn acquired(s: BackendModel, outcome: AcquireOutcome) -> BackendModel {
    match outcome {
        AcquireOutcome::Acquired { index, suboptimal } => BackendModel {
            fences: s.fences.update(s.frame_idx as int, FenceState::Unsignaled),
            phase: Phase::Recording,
            current_img: index as nat,
            rebuild_pending: s.rebuild_pending || suboptimal,
            cursor: 0,
            draws: 0,
            ..s
        },
        AcquireOutcome::OutOfDate => BackendModel {
            fences: s.fences.update(s.frame_idx as int, FenceState::Signaled),
            phase: Phase::Idle,
            rebuild_pending: true,
            ..s
        },
    }
}

pub open spec fn record_plan(s: BackendModel, outcome: AcquireOutcome) -> Option<RecordPlan> {
    match outcome {
        AcquireOutcome::Acquired { index, .. } => Some(
            RecordPlan { slot: s.frame_idx as usize, image: index, extent: s.resolution },
        ),
        AcquireOutcome::OutOfDate => None,
    }
}

/// Bytes that `count` instances take.
pub open spec fn batch_bytes(count: nat) -> nat {
    count * (INSTANCE_SIZE as nat)
}

/// A batch of `count` instances fits in what is left of the instance buffer.
pub open spec fn draw_fits(s: BackendModel, count: nat) -> bool {
    s.cursor + batch_bytes(count) <= INSTANCE_BUFFER_SIZE
}

/// What `draw_sprites` asks of its caller.
pub open spec fn can_draw(s: BackendModel, texture: nat, count: nat) -> bool {
    &&& s.phase == Phase::Recording
    &&& texture < s.textures
    &&& draw_fits(s, count)
}

pub open spec fn drawn(s: BackendModel, count: nat) -> BackendModel {
    if count == 0 {
        s
    } else {
        BackendModel { cursor: s.cursor + batch_bytes(count), draws: s.draws + 1, ..s }
    }
}

pub open spec fn draw_call(s: BackendModel, texture: nat, count: nat) -> Option<DrawCall> {
    if count == 0 {
        None
    } else {
        Some(
            DrawCall {
                slot: s.frame_idx as usize,
                texture: texture as usize,
                offset: s.cursor as u64,
                byte_count: batch_bytes(count) as u64,
                vertex_count: VERTEX_COUNT as u32,
                instance_count: count as u32,
            },
        )
    }
}

pub open spec fn next_slot(i: nat) -> nat {
    (i + 1) % (MAX_FRAMES_IN_FLIGHT as nat)
}

pub open spec fn ended(s: BackendModel) -> BackendModel {
    BackendModel {
        fences: s.fences.update(s.frame_idx as int, FenceState::Pending),
        phase: Phase::Idle,
        frame_idx: next_slot(s.frame_idx),
        ..s
    }
}

pub open spec fn submit_plan(s: BackendModel) -> SubmitPlan {
    SubmitPlan { slot: s.frame_idx as usize, image: s.current_img as usize }
}

pub open spec fn presented(s: BackendModel, stale: bool) -> BackendModel {
    BackendModel { rebuild_pending: s.rebuild_pending || stale, ..s }
}

/// The number of bytes `width * height` RGBA-8 texels take.
pub open spec fn rgba8_len(width: u32, height: u32) -> int {
    width * height * 4
}

pub open spec fn registered(s: BackendModel) -> BackendModel {
    BackendModel { textures: s.textures + 1, ..s }
}

impl BackendState {
    /// The loop's state after start-up, with a swapchain of `image_count`
    /// images at `resolution`.
    pub fn new(resolution: Extent, image_count: usize) -> (r: BackendState)
        ensures
            r@ == initial(resolution, image_count as nat),
            wf(r@),
    {
        let mut fences: Vec<FenceState> = Vec::new();
        fences.push(FenceState::Signaled);
        fences.push(FenceState::Signaled);
        let r = BackendState {
            frame_idx: 0,
            fences,
            phase: Phase::Idle,
            current_img: 0,
            image_count,
            resolution,
            requested: resolution,
            rebuild_pending: false,
            cursor: 0,
            draws: 0,
            textures: 0,
        };
        assert(r@.fences =~= seq![FenceState::Signaled, FenceState::Signaled]);
        r
    }

    /// The swapchain extent in effect.
    pub fn resolution(&self) -> (r: Extent)
        ensures
            r == self@.resolution,
    {
        self.resolution
    }

    /// Images in the swapchain in effect.
    pub fn image_count(&self) -> (r: usize)
        ensures
            r == self@.image_count,
    {
        self.image_count
    }

    /// The slot the next (or current) frame uses.
    pub fn frame_idx(&self) -> (r: usize)
        ensures
            r == self@.frame_idx,
    {
        self.frame_idx
    }

    /// Where the frame loop stands.
    pub fn phase(&self) -> (r: Phase)
        ensures
            r == self@.phase,
    {
        self.phase
    }

    /// Whether a swapchain rebuild is due at the next `begin_frame`.
    pub fn rebuild_pending(&self) -> (r: bool)
        ensures
            r == self@.rebuild_pending,
    {
        self.rebuild_pending
    }

    /// Bytes of instance data written in the frame being recorded.
    pub fn instance_cursor(&self) -> (r: u64)
        ensures
            r == self@.cursor,
    {
        self.cursor
    }

    /// Draw calls recorded in the frame being recorded.
    pub fn draw_count(&self) -> (r: usize)
        ensures
            r == self@.draws,
    {
        self.draws
    }

    /// Textures created so far.
    pub fn texture_count(&self) -> (r: usize)
        ensures
            r == self@.textures,
    {
        self.textures
    }

    /// What is known of the fence of `slot`.
    pub fn fence(&self, slot: usize) -> (r: FenceState)
        requires
            wf(self@),
            slot < MAX_FRAMES_IN_FLIGHT,
        ensures
            r == self@.fences[slot as int],
    {
        self.fences[slot]
    }

    /// Notes that the window now has `width` x `height` pixels. At the size
    /// already in effect nothing is rebuilt; at another size the swapchain is
    /// rebuilt for it at the start of the next frame.
    pub fn handle_resize(&mut self, width: u32, height: u32)
        requires
            wf(old(self)@),
        ensures
            final(self)@ == resized(old(self)@, Extent { width, height }),
            wf(final(self)@),
            width == old(self)@.resolution.width && height == old(self)@.resolution.height
                ==> final(self)@.rebuild_pending == old(self)@.rebuild_pending
                && final(self)@.resolution == old(self)@.resolution
                && final(self)@.image_count == old(self)@.image_count,
    {
        let size = Extent { width, height };
        self.requested = size;
        if !(width == self.resolution.width && height == self.resolution.height) {
            self.rebuild_pending = true;
        }
    }

    /// Marks the swapchain stale (out of date or suboptimal on present), so that
    /// the next frame rebuilds it.
    pub fn present_finished(&mut self, stale: bool)
        requires
            wf(old(self)@),
        ensures
            final(self)@ == presented(old(self)@, stale),
            wf(final(self)@),
    {
        if stale {
            self.rebuild_pending = true;
        }
    }

    /// Starts a frame: says whether the swapchain must be rebuilt first, and
    /// which slot's fence to wait on. That fence is never one that only this
    /// frame would signal, so the wait ends once the slot's last submission
    /// is complete.
    pub fn begin_frame(&mut self) -> (plan: BeginPlan)
        requires
            wf(old(self)@),
            old(self)@.phase == Phase::Idle,
        ensures
            final(self)@ == begun(old(self)@),
            plan == begin_plan(old(self)@),
            wf(final(self)@),
            old(self)@.fences[plan.slot as int] != FenceState::Unsignaled,
    {
        let plan = BeginPlan {
            rebuild: if self.rebuild_pending { Some(self.requested) } else { None },
            slot: self.frame_idx,
        };
        if self.rebuild_pending {
            self.phase = Phase::Rebuilding;
            self.rebuild_pending = false;
        } else {
            self.phase = Phase::Acquiring;
        }
        plan
    }

    /// Takes the outcome of the rebuild that `begin_frame` asked for, made after
    /// a device-idle wait: the new swapchain's extent and image count, or `None`
    /// where it failed. Returns whether the frame goes on; after a failure it
    /// is dropped and the rebuild is tried again at the next frame.
    pub fn rebuild_finished(&mut self, outcome: Option<(Extent, usize)>) -> (go_on: bool)
        requires
            wf(old(self)@),
            old(self)@.phase == Phase::Rebuilding,
        ensures
            final(self)@ == rebuilt(old(self)@, outcome),
            go_on == outcome.is_some(),
            wf(final(self)@),
    {
        self.fences.set(0, FenceState::Signaled);
        self.fences.set(1, FenceState::Signaled);
        let ghost f = self.fences@;
        assert(f =~= seq![FenceState::Signaled, FenceState::Signaled]);
        match outcome {
            Some((extent, n)) => {
                self.phase = Phase::Acquiring;
                self.resolution = extent;
                self.image_count = n;
                true
            },
            None => {
                self.phase = Phase::Idle;
                self.rebuild_pending = true;
                false
            },
        }
    }

    /// Takes the outcome of waiting on the slot's fence and acquiring an image.
    /// With an image, the fence is to be reset and the command buffer recorded
    /// as the plan says, and the instance buffer starts empty. Out of date, the
    /// frame is dropped with the fence left signaled, and the swapchain is
    /// rebuilt at the next frame.
    pub fn image_acquired(&mut self, outcome: AcquireOutcome) -> (plan: Option<RecordPlan>)
        requires
            wf(old(self)@),
            old(self)@.phase == Phase::Acquiring,
            match outcome {
                AcquireOutcome::Acquired { index, .. } => index < old(self)@.image_count,
                AcquireOutcome::OutOfDate => true,
            },
        ensures
            final(self)@ == acquired(old(self)@, outcome),
            plan == record_plan(old(self)@, outcome),
            wf(final(self)@),
    {
        let slot = self.frame_idx;
        match outcome {
            AcquireOutcome::Acquired { index, suboptimal } => {
                self.fences.set(slot, FenceState::Unsignaled);
                self.phase = Phase::Recording;
                self.current_img = index;
                self.rebuild_pending = self.rebuild_pending || suboptimal;
                self.cursor = 0;
                self.draws = 0;
                Some(RecordPlan { slot, image: index, extent: self.resolution })
            },
            AcquireOutcome::OutOfDate => {
                self.fences.set(slot, FenceState::Signaled);
                self.phase = Phase::Idle;
                self.rebuild_pending = true;
                None
            },
        }
    }

    /// Whether a batch of `count` instances still fits in this frame's share
    /// of the instance buffer.
    pub fn fits(&self, count: usize) -> (r: bool)
        requires
            wf(self@),
        ensures
            r == draw_fits(self@, count as nat),
    {
        count <= MAX_SPRITES && self.cursor + (count as u64) * INSTANCE_SIZE <= INSTANCE_BUFFER_SIZE
    }

    /// Places a batch of `count` instances of texture `texture` in the frame:
    /// the instances go at the cursor, which then moves past them, and one
    /// instanced draw of the quad covers them. An empty batch draws nothing.
    /// Only between `image_acquired` and `end_frame`, for a texture already
    /// created, and within the instance buffer.
    pub fn draw_sprites(&mut self, texture: usize, count: usize) -> (call: Option<DrawCall>)
        requires
            wf(old(self)@),
            can_draw(old(self)@, texture as nat, count as nat),
        ensures
            final(self)@ == drawn(old(self)@, count as nat),
            call == draw_call(old(self)@, texture as nat, count as nat),
            wf(final(self)@),
    {
        if count == 0 {
            return None;
        }
        let bytes = count as u64 * INSTANCE_SIZE;
        let call = DrawCall {
            slot: self.frame_idx,
            texture,
            offset: self.cursor,
            byte_count: bytes,
            vertex_count: VERTEX_COUNT as u32,
            instance_count: count as u32,
        };
        self.cursor = self.cursor + bytes;
        self.draws = self.draws + 1;
        Some(call)
    }

    /// Ends the frame: the slot's command buffer is submitted, signaling the
    /// slot's fence, and the image presented; the next frame takes the next
    /// slot.
    pub fn end_frame(&mut self) -> (plan: SubmitPlan)
        requires
            wf(old(self)@),
            old(self)@.phase == Phase::Recording,
        ensures
            final(self)@ == ended(old(self)@),
            plan == submit_plan(old(self)@),
            wf(final(self)@),
    {
        let plan = SubmitPlan { slot: self.frame_idx, image: self.current_img };
        self.fences.set(self.frame_idx, FenceState::Pending);
        self.phase = Phase::Idle;
        self.frame_idx = (self.frame_idx + 1) % MAX_FRAMES_IN_FLIGHT;
        plan
    }

    /// Whether another texture can be created.
    pub fn texture_slot_free(&self) -> (r: bool)
        ensures
            r == (self@.textures < MAX_TEXTURES),
    {
        self.textures < MAX_TEXTURES
    }

    /// Takes the next texture id, once the texture's upload has succeeded:
    /// ids are handed out in order from zero.
    pub fn register_texture(&mut self) -> (id: usize)
        requires
            wf(old(self)@),
            old(self)@.textures < MAX_TEXTURES,
        ensures
            id == old(self)@.textures,
            final(self)@ == registered(old(self)@),
            wf(final(self)@),
    {
        let id = self.textures;
        self.textures = self.textures + 1;
        id
    }
}

/// Whether `len` bytes are exactly `width * height` RGBA-8 texels.
pub fn is_rgba8_len(width: u32, height: u32, len: usize) -> (r: bool)
    ensures
        r == (len == rgba8_len(width, height)),
{
    assert(width * height <= u32::MAX * u32::MAX) by (nonlinear_arith);
    let want: u128 = width as u128 * height as u128 * 4;
    len as u128 == want
}

/// One whole frame with no rebuild due: begin, acquire `image`, end.
pub open spec fn frame_round(s: BackendModel, image: nat) -> BackendModel {
    ended(acquired(begun(s), AcquireOutcome::Acquired { index: image as usize, suboptimal: false }))
}

/// Whole frames in a row, one for each image index in `images`.
pub open spec fn frame_rounds(s: BackendModel, images: Seq<nat>) -> BackendModel
    decreases images.len(),
{
    if images.len() == 0 {
        s
    } else {
        frame_round(frame_rounds(s, images.drop_last()), images.last())
    }
}

/// `n` textures created one after another.
pub open spec fn registered_n(s: BackendModel, n: nat) -> BackendModel
    decreases n,
{
    if n == 0 {
        s
    } else {
        registered(registered_n(s, (n - 1) as nat))
    }
}

/// A whole frame from an idle state keeps the invariant, ends idle, leaves its
/// slot's fence pending and moves on to the next slot.
pub proof fn lemma_frame_round(s: BackendModel, image: nat)
    requires
        wf(s),
        s.phase == Phase::Idle,
        !s.rebuild_pending,
        image < s.image_count,
    ensures
        wf(frame_round(s, image)),
        frame_round(s, image).phase == Phase::Idle,
        !frame_round(s, image).rebuild_pending,
        frame_round(s, image).image_count == s.image_count,
        frame_round(s, image).frame_idx == next_slot(s.frame_idx),
        frame_round(s, image).fences == s.fences.update(s.frame_idx as int, FenceState::Pending),
{
    let t = frame_round(s, image);
    assert forall|i: int|
        0 <= i < MAX_FRAMES_IN_FLIGHT && t.fences[i] == FenceState::Unsignaled implies t.phase
            == Phase::Recording && i == t.frame_idx by {
        if i != s.frame_idx {
            assert(t.fences[i] == s.fences[i]);
        }
    }
}

/// Back-pressure: after `MAX_FRAMES_IN_FLIGHT` frames are submitted in a row
/// with no GPU completion observed in between, every slot's fence is pending,
/// and the next `begin_frame` waits on the fence of the first of those frames.
/// No more than `MAX_FRAMES_IN_FLIGHT` frames of work are ever queued.
pub proof fn lemma_back_pressure(s: BackendModel, images: Seq<nat>)
    requires
        wf(s),
        s.phase == Phase::Idle,
        !s.rebuild_pending,
        images.len() == MAX_FRAMES_IN_FLIGHT,
        forall|i: int| 0 <= i < images.len() ==> images[i] < s.image_count,
    ensures
        wf(frame_rounds(s, images)),
        forall|i: int|
            0 <= i < MAX_FRAMES_IN_FLIGHT ==> frame_rounds(s, images).fences[i]
                == FenceState::Pending,
        begin_plan(frame_rounds(s, images)).slot == s.frame_idx,
        begin_plan(frame_rounds(s, images)).rebuild == None::<Extent>,
{
    let first = images.drop_last();
    assert(first.drop_last() =~= Seq::<nat>::empty());
    assert(first.last() == images[0]);
    assert(frame_rounds(s, first.drop_last()) == s);
    lemma_frame_round(s, images[0]);
    let s1 = frame_rounds(s, first);
    assert(s1 == frame_round(s, images[0]));
    lemma_frame_round(s1, images[1]);
    let s2 = frame_rounds(s, images);
    assert(s2 == frame_round(s1, images[1]));
    assert(s1.frame_idx != s.frame_idx);
    assert forall|i: int| 0 <= i < MAX_FRAMES_IN_FLIGHT implies s2.fences[i]
        == FenceState::Pending by {
        if i == s1.frame_idx {
        } else {
            assert(i == s.frame_idx);
        }
    }
}

/// Frame ordering: sprites can be drawn only after `begin_frame` has returned
/// and an image was acquired, and no longer once `end_frame` has run; the
/// next draw then waits for the next frame's acquisition.
pub proof fn lemma_frame_order(s: BackendModel, texture: nat, count: nat, outcome: AcquireOutcome)
    requires
        wf(s),
    ensures
        s.phase == Phase::Idle ==> !can_draw(s, texture, count),
        s.phase == Phase::Idle ==> !can_draw(begun(s), texture, count),
        s.phase == Phase::Rebuilding ==> !can_draw(rebuilt(s, None), texture, count),
        s.phase == Phase::Acquiring ==> (can_draw(acquired(s, outcome), texture, count) <==> (
        outcome is Acquired && texture < s.textures && batch_bytes(count) <= INSTANCE_BUFFER_SIZE)),
        s.phase == Phase::Recording ==> !can_draw(ended(s), texture, count),
{
}

/// Idempotence of resizing: at the size already in effect, `handle_resize`
/// leaves the swapchain's extent and image count alone and brings no rebuild
/// on the next frame; doing it twice is doing it once.
pub proof fn lemma_resize_same_size(s: BackendModel, size: Extent)
    requires
        wf(s),
    ensures
        resized(resized(s, size), size) == resized(s, size),
        size == s.resolution ==> {
            &&& resized(s, size).resolution == s.resolution
            &&& resized(s, size).image_count == s.image_count
            &&& !s.rebuild_pending ==> begin_plan(resized(s, size)).rebuild == None::<Extent>
        },
{
}

/// Resize round-trip: after `handle_resize(w, h)` to a new size, the next
/// `begin_frame` rebuilds for `(w, h)`, and the swapchain then in effect has
/// extent `(w, h)`, or the surface's own extent where it reports one. No image
/// of the old swapchain stays acquired.
pub proof fn lemma_resize_round_trip(
    s: BackendModel,
    width: u32,
    height: u32,
    caps: crate::swapchain::SurfaceCaps,
    modes: Seq<i32>,
    image_count: usize,
)
    requires
        wf(s),
        s.phase == Phase::Idle,
        (Extent { width, height }) != s.resolution,
    ensures
        ({
            let s1 = resized(s, Extent { width, height });
            let plan = begin_plan(s1);
            let config = crate::swapchain::swapchain_config(caps, modes, plan.rebuild.unwrap());
            let s2 = rebuilt(begun(s1), Some((config.extent, image_count)));
            &&& plan.rebuild == Some(Extent { width, height })
            &&& s2.resolution == if caps.current_extent.width
                == crate::swapchain::UNDEFINED_EXTENT_WIDTH {
                Extent { width, height }
            } else {
                caps.current_extent
            }
            &&& s2.image_count == image_count
            &&& s2.phase == Phase::Acquiring
            &&& !s2.rebuild_pending
            &&& wf(s2)
        }),
{
    let s1 = resized(s, Extent { width, height });
    let plan = begin_plan(s1);
    let config = crate::swapchain::swapchain_config(caps, modes, plan.rebuild.unwrap());
    let s2 = rebuilt(begun(s1), Some((config.extent, image_count)));
    assert(s2.fences =~= seq![FenceState::Signaled, FenceState::Signaled]);
}

/// Instance buffer capacity: a frame that has just acquired its image takes
/// exactly `MAX_SPRITES` instances, and not one more.
pub proof fn lemma_instance_capacity(s: BackendModel, index: usize, suboptimal: bool, texture: nat)
    requires
        wf(s),
        s.phase == Phase::Acquiring,
        index < s.image_count,
        texture < s.textures,
    ensures
        can_draw(
            acquired(s, AcquireOutcome::Acquired { index, suboptimal }),
            texture,
            MAX_SPRITES as nat,
        ),
        !can_draw(
            acquired(s, AcquireOutcome::Acquired { index, suboptimal }),
            texture,
            MAX_SPRITES as nat + 1,
        ),
        !draw_fits(
            drawn(acquired(s, AcquireOutcome::Acquired { index, suboptimal }), MAX_SPRITES as nat),
            1,
        ),
{
}

/// Texture ids: starting from a fresh backend, the `k`-th texture created gets
/// id `k` (so ids rise by one from zero), and nothing else in the state moves.
pub proof fn lemma_texture_ids(resolution: Extent, image_count: nat, n: nat)
    requires
        n <= MAX_TEXTURES,
    ensures
        registered_n(initial(resolution, image_count), n) == (BackendModel {
            textures: n,
            ..initial(resolution, image_count)
        }),
    decreases n,
{
    if n > 0 {
        lemma_texture_ids(resolution, image_count, (n - 1) as nat);
    }
}

/// A texture is usable as soon as it is created: in a frame being recorded,
/// a batch that fits may be drawn with the new id.
pub proof fn lemma_texture_usable(s: BackendModel, count: nat)
    requires
        wf(s),
        s.textures < MAX_TEXTURES,
        s.phase == Phase::Recording,
        draw_fits(s, count),
    ensures
        can_draw(registered(s), s.textures, count),
        wf(registered(s)),
{
}

} // verus!
