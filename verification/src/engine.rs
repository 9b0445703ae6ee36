//! The crossfade engine: a state machine over the image store that, driven by
//! two one-shot timers, advances the playlist cursor and blends the outgoing
//! image into the incoming one in fixed alpha increments.
//!
//! The engine never arms both timers at once: the advance timer runs only
//! while an image is shown opaque, the fade-step timer only while a blend is
//! in progress, so the two firings are never actionable in the same tick.

use vstd::prelude::*;
use vstd::pervasive::VecAdditionalExecFns;
use crate::cli::Start;
use crate::frame::{overlay_images, overlay_of, with_alpha, RgbaBuffer, ALPHA_CHANNEL};
use crate::playlist::{
    absorb_path, absorb_store, advance_index, advance_store, path_views, StoreModel,
};

verus! {

/// Phase of the crossfade state machine.
#[derive(Clone, Copy, PartialEq, Eq, Structural)]
pub enum TransitionState {
    /// One image is shown fully opaque; the advance timer runs.
    Idle,
    /// The next image's path has been chosen; its pixels have not arrived yet.
    Loading,
    /// Two images are blended together; the fade-step timer runs.
    Fading,
}

/// Blend progress and phase, as mathematical values.
#[derive(PartialEq, Eq, Structural)]
pub struct FadeModel {
    pub alpha: nat,
    pub idle: bool,
}

/// One fade-step firing with step size `k`: an intermediate firing raises the
/// blend level by `k`; the final firing snaps to full opacity and returns to
/// `Idle`.
pub open spec fn fade_fire(m: FadeModel, k: nat) -> FadeModel {
    if m.idle {
        m
    } else if m.alpha + k < 255 {
        FadeModel { alpha: m.alpha + k, idle: false }
    } else {
        FadeModel { alpha: 255, idle: true }
    }
}

/// The blend state after `n` fade-step firings.
pub open spec fn fade_fires(m: FadeModel, k: nat, n: nat) -> FadeModel
    decreases n,
{
    if n == 0 {
        m
    } else {
        fade_fires(fade_fire(m, k), k, (n - 1) as nat)
    }
}

/// The number of fade-step firings that complete a fade with step `k`: the
/// ceiling of 255 / k.
pub open spec fn fade_steps_to_idle(k: nat) -> nat {
    ((255 + k - 1) / (k as int)) as nat
}

/// The slideshow engine. All fields are mutated only through the methods
/// below; `wf` is their shared invariant.
pub struct Diashow {
    /// The playlist: image paths in display order.
    pub images: Vec<String>,
    /// Newly discovered paths, oldest first, not yet folded into the playlist.
    pub image_queue: Vec<String>,
    /// Cursor into `images`.
    pub current_index: usize,
    /// The composited frame currently handed to the render sink.
    pub current_image: RgbaBuffer,
    /// While fading: the outgoing image, with its alpha lowered step by step.
    pub previous_image: RgbaBuffer,
    /// While fading: the incoming image, with its alpha raised step by step.
    pub next_image: RgbaBuffer,
    /// Blend level: 0 at the start of a fade, 255 once it has completed.
    pub current_alpha: u8,
    /// Alpha increment applied per fade step.
    pub fade_iteration_step: u8,
    /// Whether the advance timer is armed.
    pub change_armed: bool,
    /// Whether the fade-step timer is armed.
    pub fade_armed: bool,
    /// Phase of the crossfade state machine.
    pub transition: TransitionState,
}

impl Diashow {
    /// The image store behind this engine, as mathematical values.
    pub open spec fn store(self) -> StoreModel {
        StoreModel {
            images: path_views(self.images@),
            queue: path_views(self.image_queue@),
            index: self.current_index as nat,
        }
    }

    /// Blend progress and phase, as mathematical values.
    pub open spec fn fade_model(self) -> FadeModel {
        FadeModel { alpha: self.current_alpha as nat, idle: self.transition is Idle }
    }

    /// The engine's invariant: a nonempty playlist with a valid cursor, well
    /// formed pixel buffers, and at most one timer armed, each in its phase.
    pub open spec fn wf(self) -> bool {
        &&& self.images@.len() >= 1
        &&& (self.current_index as int) < self.images@.len()
        &&& self.current_image.wf()
        &&& self.previous_image.wf()
        &&& self.next_image.wf()
        &&& !(self.change_armed && self.fade_armed)
        &&& (self.change_armed ==> self.transition is Idle)
        &&& (self.fade_armed ==> self.transition is Fading)
    }

    /// The concrete start position for a requested offset: nonnegative
    /// offsets count from the front, negative ones from the end, absent
    /// means the front.
    pub fn get_start_index(start_index: Option<i64>, images_len: usize) -> (r: usize)
        requires
            images_len >= 1,
            valid_start_index(start_index, images_len as int),
        ensures
            r < images_len,
            r as int == resolved_start_index(start_index, images_len as int),
    {
        match start_index {
            Some(s) => {
                if s < 0 {
                    images_len - ((-s) as usize)
                } else {
                    s as usize
                }
            },
            None => 0,
        }
    }

    /// A fresh engine showing `start_image`, the decoded pixels of the
    /// playlist entry selected by the requested start offset, fully opaque,
    /// with the advance timer armed and nothing pending.
    pub fn new(images: Vec<String>, start_parameter: &Start, start_image: RgbaBuffer) -> (r:
        Diashow)
        requires
            images@.len() >= 1,
            valid_start_index(start_parameter.start_index, images@.len() as int),
            start_image.wf(),
        ensures
            r.wf(),
            r.images == images,
            r.image_queue@ == Seq::<String>::empty(),
            r.current_index as int == resolved_start_index(
                start_parameter.start_index,
                images@.len() as int,
            ),
            r.current_image == start_image,
            r.previous_image.data@ == start_image.data@,
            r.next_image.data@ == Seq::<u8>::empty(),
            r.current_alpha == 255,
            r.fade_iteration_step == match start_parameter.fade_iteration_step {
                Some(k) => k,
                None => crate::FADE_ITERATION_STEPS,
            },
            r.transition is Idle,
            r.change_armed,
            !r.fade_armed,
    {
        let current_index = Self::get_start_index(start_parameter.start_index, images.len());
        let previous_image = start_image.duplicate();
        let fade_iteration_step = match start_parameter.fade_iteration_step {
            Some(k) => k,
            None => crate::FADE_ITERATION_STEPS,
        };
        Diashow {
            images,
            image_queue: Vec::new(),
            current_index,
            current_image: start_image,
            previous_image,
            next_image: RgbaBuffer::empty(),
            current_alpha: 255,
            fade_iteration_step,
            change_armed: true,
            fade_armed: false,
            transition: TransitionState::Idle,
        }
    }

    /// Moves the cursor one step forward, wrapping to the front at the end.
    pub fn iterate_index(&mut self)
        requires
            old(self).wf(),
        ensures
            final(self).wf(),
            final(self).current_index as nat == advance_index(
                old(self).current_index as nat,
                old(self).images@.len() as nat,
            ),
            final(self).store() == advance_store(old(self).store()),
            final(self).images == old(self).images,
            final(self).image_queue == old(self).image_queue,
            final(self).current_image == old(self).current_image,
            final(self).previous_image == old(self).previous_image,
            final(self).next_image == old(self).next_image,
            final(self).current_alpha == old(self).current_alpha,
            final(self).fade_iteration_step == old(self).fade_iteration_step,
            final(self).change_armed == old(self).change_armed,
            final(self).fade_armed == old(self).fade_armed,
            final(self).transition == old(self).transition,
    {
        if self.current_index == self.images.len() - 1 {
            self.current_index = 0;
        } else {
            self.current_index = self.current_index + 1;
        }
    }

    /// Appends a newly discovered path to the pending queue's tail.
    pub fn push_discovered(&mut self, path: String)
        requires
            old(self).wf(),
        ensures
            final(self).wf(),
            final(self).image_queue@ == old(self).image_queue@.push(path),
            final(self).store().queue == old(self).store().queue.push(path@),
            final(self).store().images == old(self).store().images,
            final(self).store().index == old(self).store().index,
            final(self).images == old(self).images,
            final(self).current_index == old(self).current_index,
            final(self).current_image == old(self).current_image,
            final(self).previous_image == old(self).previous_image,
            final(self).next_image == old(self).next_image,
            final(self).current_alpha == old(self).current_alpha,
            final(self).fade_iteration_step == old(self).fade_iteration_step,
            final(self).change_armed == old(self).change_armed,
            final(self).fade_armed == old(self).fade_armed,
            final(self).transition == old(self).transition,
    {
        let ghost before = self.image_queue@;
        self.image_queue.push(path);
        proof {
            crate::playlist::lemma_path_views_push(before, path);
        }
    }

    /// Takes the path to display next: the oldest pending path if any is
    /// queued — folding it into the playlist's tail, so that discovered
    /// images stay in the rotation — or the playlist entry under the cursor.
    pub fn absorb_pending(&mut self) -> (path: String)
        requires
            old(self).wf(),
        ensures
            final(self).wf(),
            path@ == absorb_path(old(self).store()),
            final(self).store() == absorb_store(old(self).store()),
            final(self).current_index == old(self).current_index,
            final(self).current_image == old(self).current_image,
            final(self).previous_image == old(self).previous_image,
            final(self).next_image == old(self).next_image,
            final(self).current_alpha == old(self).current_alpha,
            final(self).fade_iteration_step == old(self).fade_iteration_step,
            final(self).change_armed == old(self).change_armed,
            final(self).fade_armed == old(self).fade_armed,
            final(self).transition == old(self).transition,
    {
        if self.image_queue.len() == 0 {
            let path = self.images[self.current_index].clone();
            proof {
                assert(self.store() =~~= absorb_store(old(self).store()));
            }
            path
        } else {
            let ghost queue_before = self.image_queue@;
            let ghost images_before = self.images@;
            let path = self.image_queue.remove(0);
            self.images.push(path.clone());
            proof {
                assert(self.image_queue@ =~= queue_before.drop_first());
                crate::playlist::lemma_path_views_drop_first(queue_before);
                crate::playlist::lemma_path_views_push(images_before, path);
                assert(path_views(self.images@) =~= path_views(images_before).push(path@));
                assert(self.store() =~~= absorb_store(old(self).store()));
            }
            path
        }
    }

    /// Handles an advance-timer firing: clears it, advances the cursor, and
    /// chooses the next image's path, which the caller must decode and hand
    /// to `begin_fade`.
    pub fn begin_change(&mut self) -> (path: String)
        requires
            old(self).wf(),
            old(self).transition is Idle,
            old(self).change_armed,
        ensures
            final(self).wf(),
            final(self).transition is Loading,
            !final(self).change_armed,
            !final(self).fade_armed,
            path@ == absorb_path(advance_store(old(self).store())),
            final(self).store() == absorb_store(advance_store(old(self).store())),
            final(self).current_image == old(self).current_image,
            final(self).previous_image == old(self).previous_image,
            final(self).next_image == old(self).next_image,
            final(self).current_alpha == old(self).current_alpha,
            final(self).fade_iteration_step == old(self).fade_iteration_step,
    {
        self.change_armed = false;
        self.iterate_index();
        let path = self.absorb_pending();
        self.transition = TransitionState::Loading;
        path
    }

    /// Supplies the decoded pixels of the path that `begin_change` chose and
    /// starts the fade: blend level 0, the shown frame becomes the outgoing
    /// image, and the fade-step timer is armed.
    pub fn begin_fade(&mut self, next: RgbaBuffer)
        requires
            old(self).wf(),
            old(self).transition is Loading,
            next.wf(),
        ensures
            final(self).wf(),
            final(self).transition is Fading,
            final(self).fade_armed,
            !final(self).change_armed,
            final(self).current_alpha == 0,
            final(self).next_image == next,
            final(self).previous_image.width == old(self).current_image.width,
            final(self).previous_image.height == old(self).current_image.height,
            final(self).previous_image.data@ == old(self).current_image.data@,
            final(self).current_image == old(self).current_image,
            final(self).store() == old(self).store(),
            final(self).fade_iteration_step == old(self).fade_iteration_step,
    {
        self.next_image = next;
        self.previous_image = self.current_image.duplicate();
        self.current_alpha = 0;
        self.fade_armed = true;
        self.transition = TransitionState::Fading;
    }

    /// Handles a fade-step firing. An intermediate firing raises the blend
    /// level by the step, lowers the outgoing image's alpha to its
    /// complement, raises the incoming image's alpha to the blend level —
    /// the two alpha channels sum to 255 everywhere — recomposites, and
    /// re-arms the fade-step timer. The final firing shows the incoming
    /// image fully opaque, returns to `Idle` and re-arms the advance timer.
    pub fn fade_step(&mut self)
        requires
            old(self).wf(),
            old(self).transition is Fading,
            old(self).fade_armed,
        ensures
            final(self).wf(),
            final(self).store() == old(self).store(),
            final(self).fade_iteration_step == old(self).fade_iteration_step,
            final(self).fade_model() == fade_fire(
                old(self).fade_model(),
                old(self).fade_iteration_step as nat,
            ),
            old(self).current_alpha + old(self).fade_iteration_step < 255 ==> {
                &&& final(self).transition is Fading
                &&& final(self).fade_armed
                &&& !final(self).change_armed
                &&& final(self).current_alpha == old(self).current_alpha
                    + old(self).fade_iteration_step
                &&& final(self).previous_image.width == old(self).previous_image.width
                &&& final(self).previous_image.height == old(self).previous_image.height
                &&& final(self).previous_image.data@ == with_alpha(
                    old(self).previous_image.data@,
                    (255 - final(self).current_alpha) as u8,
                )
                &&& final(self).next_image.width == old(self).next_image.width
                &&& final(self).next_image.height == old(self).next_image.height
                &&& final(self).next_image.data@ == with_alpha(
                    old(self).next_image.data@,
                    final(self).current_alpha,
                )
                &&& final(self).current_image.width == old(self).previous_image.width
                &&& final(self).current_image.height == old(self).previous_image.height
                &&& final(self).current_image.data@ == overlay_of(
                    old(self).previous_image.width as int,
                    old(self).previous_image.height as int,
                    final(self).previous_image.data@,
                    old(self).next_image.width as int,
                    old(self).next_image.height as int,
                    final(self).next_image.data@,
                )
                &&& forall|i: int|
                    0 <= i < final(self).previous_image.data@.len()
                        && i < final(self).next_image.data@.len() && i % 4 == 3
                        ==> final(self).previous_image.data@[i]
                            + final(self).next_image.data@[i] == 255
            },
            old(self).current_alpha + old(self).fade_iteration_step >= 255 ==> {
                &&& final(self).transition is Idle
                &&& final(self).change_armed
                &&& !final(self).fade_armed
                &&& final(self).current_alpha == 255
                &&& final(self).current_image.width == old(self).next_image.width
                &&& final(self).current_image.height == old(self).next_image.height
                &&& final(self).current_image.data@ == with_alpha(old(self).next_image.data@, 255)
                &&& final(self).previous_image == old(self).previous_image
                &&& final(self).next_image == old(self).next_image
            },
    {
        self.fade_armed = false;
        let step = self.fade_iteration_step;
        if self.current_alpha < 255 - step {
            self.current_alpha = self.current_alpha + step;
            let new_alpha = self.current_alpha;
            Self::set_alpha_channel_to(&mut self.previous_image, 255 - new_alpha);
            Self::set_alpha_channel_to(&mut self.next_image, new_alpha);
            self.current_image = overlay_images(&self.previous_image, &self.next_image);
            self.fade_armed = true;
        } else {
            self.current_image = self.next_image.duplicate();
            Self::set_alpha_channel_to(&mut self.current_image, 255);
            self.current_alpha = 255;
            self.change_armed = true;
            self.transition = TransitionState::Idle;
        }
    }

    /// Sets the alpha byte of every pixel to `alpha`; the color bytes stay
    /// unchanged.
    pub fn set_alpha_channel_to(image: &mut RgbaBuffer, alpha: u8)
        ensures
            final(image).width == old(image).width,
            final(image).height == old(image).height,
            final(image).data@ == with_alpha(old(image).data@, alpha),
    {
        let len = image.data.len();
        let pixel_count = len / 4;
        let mut p: usize = 0;
        while p < pixel_count
            invariant
                p <= pixel_count,
                pixel_count == len / 4,
                image.data@.len() == len,
                image.width == old(image).width,
                image.height == old(image).height,
                forall|j: int|
                    0 <= j < len ==> image.data@[j] == (if j % 4 == 3 && j < 4 * p {
                        alpha
                    } else {
                        old(image).data@[j]
                    }),
            decreases pixel_count - p,
        {
            let i = 4 * p + ALPHA_CHANNEL;
            image.data.set(i, alpha);
            p = p + 1;
        }
        proof {
            assert(image.data@ =~= with_alpha(old(image).data@, alpha));
        }
    }

    /// Whether the engine is idle: showing one opaque image, no fade running.
    pub fn is_idle(&self) -> (r: bool)
        ensures
            r == (self.transition is Idle),
    {
        match self.transition {
            TransitionState::Idle => true,
            _ => false,
        }
    }
}

/// A requested start offset that the playlist can satisfy: its magnitude is
/// smaller than the playlist length (and negatable without overflow).
pub open spec fn valid_start_index(start_index: Option<i64>, len: int) -> bool {
    match start_index {
        Some(s) => -len < s < len && s > i64::MIN,
        None => true,
    }
}

/// The index a requested start offset selects: the offset itself when it is
/// nonnegative or absent (then 0), and `len + s` — counting from the end —
/// when it is negative.
pub open spec fn resolved_start_index(start_index: Option<i64>, len: int) -> int {
    match start_index {
        Some(s) => if s < 0 {
            len + s
        } else {
            s as int
        },
        None => 0,
    }
}

proof fn lemma_fade_fires_snoc(m: FadeModel, k: nat, n: nat)
    ensures
        fade_fires(m, k, n + 1) == fade_fire(fade_fires(m, k, n), k),
    decreases n,
{
    if n == 0 {
        assert(fade_fires(m, k, 1) == fade_fires(fade_fire(m, k), k, 0));
        assert(fade_fires(fade_fire(m, k), k, 0) == fade_fire(m, k));
        assert(fade_fires(m, k, 0) == m);
    } else {
        lemma_fade_fires_snoc(fade_fire(m, k), k, (n - 1) as nat);
        assert(fade_fires(m, k, n + 1) == fade_fires(fade_fire(m, k), k, n));
        assert(fade_fires(m, k, n) == fade_fires(fade_fire(m, k), k, (n - 1) as nat));
    }
}

proof fn lemma_fade_alpha_after(k: nat, i: nat)
    requires
        1 <= k <= 255,
        i < fade_steps_to_idle(k),
    ensures
        fade_fires(FadeModel { alpha: 0, idle: false }, k, i) == (FadeModel {
            alpha: i * k,
            idle: false,
        }),
    decreases i,
{
    let q = (255 + k - 1) / (k as int);
    vstd::arithmetic::div_mod::lemma_div_pos_is_pos(255 + k - 1, k as int);
    let d = fade_steps_to_idle(k) as int;
    assert(d == q);
    vstd::arithmetic::div_mod::lemma_fundamental_div_mod(255 + k - 1, k as int);
    vstd::arithmetic::div_mod::lemma_mod_bound(255 + k - 1, k as int);
    assert(d * k <= 254 + k);
    if i == 0 {
        assert(fade_fires(FadeModel { alpha: 0, idle: false }, k, 0) == (FadeModel {
            alpha: 0nat,
            idle: false,
        }));
        assert(0 * k == 0) by (nonlinear_arith);
    } else {
        lemma_fade_alpha_after(k, (i - 1) as nat);
        lemma_fade_fires_snoc(FadeModel { alpha: 0, idle: false }, k, (i - 1) as nat);
        assert(i * k <= 254) by {
            vstd::arithmetic::mul::lemma_mul_inequality(i as int, d - 1, k as int);
            assert((d - 1) * k == d * k - k) by (nonlinear_arith);
        }
        assert((i - 1) * k + k == i * k) by (nonlinear_arith);
    }
}

/// Fade progression law: starting at blend level 0 with step `k`, the engine
/// is back to `Idle` — at full opacity — after exactly the ceiling of 255/k
/// fade-step firings, and at no earlier firing.
pub proof fn lemma_fade_progression(k: nat)
    requires
        1 <= k <= 255,
    ensures
        fade_fires(FadeModel { alpha: 0, idle: false }, k, fade_steps_to_idle(k)) == (FadeModel {
            alpha: 255,
            idle: true,
        }),
        forall|n: nat|
            n < fade_steps_to_idle(k) ==> !fade_fires(
                FadeModel { alpha: 0, idle: false },
                k,
                n,
            ).idle,
{
    let start = FadeModel { alpha: 0, idle: false };
    let q = (255 + k - 1) / (k as int);
    vstd::arithmetic::div_mod::lemma_div_pos_is_pos(255 + k - 1, k as int);
    let d = fade_steps_to_idle(k);
    assert(d as int == q);
    vstd::arithmetic::div_mod::lemma_fundamental_div_mod(255 + k - 1, k as int);
    vstd::arithmetic::div_mod::lemma_mod_bound(255 + k - 1, k as int);
    assert((d as int) * k >= 255);
    assert(d >= 1) by {
        if d == 0 {
            assert((d as int) * k == 0) by (nonlinear_arith)
                requires
                    d == 0,
            ;
        }
    }
    lemma_fade_alpha_after(k, (d - 1) as nat);
    lemma_fade_fires_snoc(start, k, (d - 1) as nat);
    assert(((d - 1) as nat) * k + k >= 255) by {
        assert(((d as int) - 1) * k == (d as int) * k - k) by (nonlinear_arith);
    }
    assert(fade_fires(start, k, d) == (FadeModel { alpha: 255, idle: true }));
    assert forall|n: nat| n < d implies !fade_fires(start, k, n).idle by {
        lemma_fade_alpha_after(k, n);
    }
}

} // verus!
